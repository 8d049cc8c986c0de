use vstd::prelude::*;

use crate::config::{config_error, plain_name, valid, ConfigError, ContainerView};
use crate::launch::{launch_run, launch_step, LaunchPhase, LaunchView};
use crate::protocol::ending_code;
use crate::decimal::decimal;
use crate::paths::{cgroup_dir, group_file, joined, old_root_name, parked_old_root};
use crate::protocol::{ActionView, EventView, Failure, DIR_MODE, FILE_MODE, RELAXED_MODE};
use crate::setup::{initial, is_terminal, rank, run, session_wf, step, Phase, SessionView};

verus! {

/// Every step keeps a session state reachable, and never moves backwards.
pub proof fn step_keeps_session_wf(s: SessionView, e: EventView)
    requires
        session_wf(s),
    ensures
        session_wf(step(s, e).0),
        rank(step(s, e).0.phase) >= rank(s.phase),
        !is_terminal(s.phase) ==> rank(step(s, e).0.phase) > rank(s.phase),
        is_terminal(s.phase) ==> step(s, e).0 == s,
{
}

/// `/proc` is mounted when the command starts and is unmounted after it ends:
/// the command is started only once the mount succeeded; a mount is asked for
/// only while `/proc` is not mounted and an unmount only while it is; the end of
/// the command always leads to an unmount; and a clean finish leaves nothing
/// mounted and no old root parked.
pub proof fn proc_mounted_around_command(s: SessionView, e: EventView)
    requires
        session_wf(s),
    ensures
        step(s, e).1 is RunCommand ==> s.phase == Phase::AwaitMountProc && e == EventView::Done
            && step(s, e).0.proc_mounted,
        step(s, e).1 is MountProc ==> !s.proc_mounted && !step(s, e).0.proc_mounted,
        step(s, e).1 is UnmountProc ==> s.proc_mounted && s.phase == Phase::AwaitCommand,
        s.phase == Phase::AwaitCommand ==> step(s, e).1 is UnmountProc,
        (step(s, e).0.phase matches Phase::Finished { clean, .. } && clean)
            ==> !step(s, e).0.proc_mounted && !step(s, e).0.old_root_parked,
{
}

proof fn lemma_nothing_behind(s: SessionView, evs: Seq<EventView>)
    requires
        session_wf(s),
    ensures
        rank(s.phase) > rank(Phase::AwaitCommand) ==> forall|i: int|
            0 <= i < run(s, evs).len() ==> !(#[trigger] run(s, evs)[i] is UnmountProc),
        rank(s.phase) > rank(Phase::AwaitChdirSlash) ==> forall|i: int|
            0 <= i < run(s, evs).len() ==> !(#[trigger] run(s, evs)[i] is MountProc),
    decreases evs.len(),
{
    if evs.len() > 0 {
        step_keeps_session_wf(s, evs[0]);
        lemma_nothing_behind(step(s, evs[0]).0, evs.drop_first());
        assert(run(s, evs) == seq![step(s, evs[0]).1] + run(step(s, evs[0]).0, evs.drop_first()));
        assert forall|i: int| 0 < i < run(s, evs).len() implies run(s, evs)[i] == run(
            step(s, evs[0]).0,
            evs.drop_first(),
        )[i - 1] by {}
    }
}

/// Whatever the outcomes, a run asks at most once to mount `/proc` and at
/// most once to unmount it.
pub proof fn proc_mounted_at_most_once(s: SessionView, evs: Seq<EventView>)
    requires
        session_wf(s),
    ensures
        forall|i: int, j: int|
            0 <= i < j < run(s, evs).len() && #[trigger] run(s, evs)[i] is UnmountProc
                ==> !(#[trigger] run(s, evs)[j] is UnmountProc),
        forall|i: int, j: int|
            0 <= i < j < run(s, evs).len() && #[trigger] run(s, evs)[i] is MountProc
                ==> !(#[trigger] run(s, evs)[j] is MountProc),
    decreases evs.len(),
{
    if evs.len() > 0 {
        let t = step(s, evs[0]).0;
        let rest = evs.drop_first();
        step_keeps_session_wf(s, evs[0]);
        proc_mounted_at_most_once(t, rest);
        lemma_nothing_behind(t, rest);
        assert(run(s, evs) == seq![step(s, evs[0]).1] + run(t, rest));
        assert forall|i: int| 0 < i < run(s, evs).len() implies run(s, evs)[i] == run(t, rest)[i
            - 1] by {}
        assert forall|i: int, j: int|
            0 <= i < j < run(s, evs).len() && #[trigger] run(s, evs)[i] is UnmountProc
                implies !(#[trigger] run(s, evs)[j] is UnmountProc) by {
            if i == 0 {
                assert(run(t, rest)[j - 1] == run(s, evs)[j]);
            } else {
                assert(run(t, rest)[i - 1] == run(s, evs)[i]);
                assert(run(t, rest)[j - 1] == run(s, evs)[j]);
            }
        }
        assert forall|i: int, j: int|
            0 <= i < j < run(s, evs).len() && #[trigger] run(s, evs)[i] is MountProc
                implies !(#[trigger] run(s, evs)[j] is MountProc) by {
            if i == 0 {
                assert(run(t, rest)[j - 1] == run(s, evs)[j]);
            } else {
                assert(run(t, rest)[i - 1] == run(s, evs)[i]);
                assert(run(t, rest)[j - 1] == run(s, evs)[j]);
            }
        }
    }
}

/// Setup fails fast on an empty command: the configuration is refused, so no
/// launch or session can start from it.
pub proof fn empty_command_refused(c: ContainerView)
    requires
        c.args.len() == 0,
    ensures
        config_error(c) == Some(ConfigError::EmptyCommand),
        !valid(c),
{
}

/// A failed run stays failed: whatever comes next, it only reports its failure.
pub proof fn failure_is_final(s: SessionView, evs: Seq<EventView>)
    requires
        s.phase is Failed,
    ensures
        forall|i: int|
            0 <= i < run(s, evs).len() ==> #[trigger] run(s, evs)[i] == (ActionView::Abort {
                error: s.phase->Failed_error,
            }),
    decreases evs.len(),
{
    if evs.len() > 0 {
        failure_is_final(step(s, evs[0]).0, evs.drop_first());
        assert forall|i: int| 0 < i < run(s, evs).len() implies run(s, evs)[i] == run(
            step(s, evs[0]).0,
            evs.drop_first(),
        )[i - 1] by {}
    }
}

/// Setup fails fast when the control group cannot be written: a failed write
/// of a control file ends the run at once, and the command is never started.
pub proof fn unwritable_group_fails_fast(s: SessionView, evs: Seq<EventView>)
    requires
        session_wf(s),
        s.phase == Phase::AwaitPidsMax || s.phase == Phase::AwaitNotify || s.phase
            == Phase::AwaitProcs,
        evs.len() > 0,
        evs[0] == EventView::Failed,
    ensures
        run(s, evs)[0] == (ActionView::Abort { error: Failure::CgroupWrite }),
        forall|i: int| 0 <= i < run(s, evs).len() ==> !(#[trigger] run(s, evs)[i] is RunCommand),
{
    let t = step(s, evs[0]).0;
    failure_is_final(t, evs.drop_first());
    assert forall|i: int| 0 < i < run(s, evs).len() implies run(s, evs)[i] == run(
        t,
        evs.drop_first(),
    )[i - 1] by {}
}

/// Setup fails fast when the control group directory can be neither created
/// nor found: the run ends at once, and the command is never started.
pub proof fn missing_group_fails_fast(s: SessionView, evs: Seq<EventView>)
    requires
        session_wf(s),
        s.phase == Phase::AwaitGroupMkdir,
        evs.len() > 1,
        evs[0] == EventView::Failed,
        evs[1] == EventView::Exists(false),
    ensures
        run(s, evs)[1] == (ActionView::Abort { error: Failure::CgroupDir }),
        forall|i: int| 0 <= i < run(s, evs).len() ==> !(#[trigger] run(s, evs)[i] is RunCommand),
{
    let t1 = step(s, EventView::Failed).0;
    let t2 = step(t1, EventView::Exists(false)).0;
    let rest = evs.drop_first().drop_first();
    assert(evs.drop_first()[0] == EventView::Exists(false));
    failure_is_final(t2, rest);
    assert(run(s, evs) == seq![step(s, evs[0]).1] + run(t1, evs.drop_first()));
    assert(run(t1, evs.drop_first()) == seq![step(t1, EventView::Exists(false)).1] + run(
        t2,
        rest,
    ));
    assert forall|i: int| 1 < i < run(s, evs).len() implies run(s, evs)[i] == run(t2, rest)[i
        - 2] by {}
}

/// Once the group directory exists, the control files are written in order:
/// the process limit in decimal, release notification on, then the process id
/// (one id, in decimal), each with owner-only permissions.
pub proof fn group_files_written(s: SessionView, pid: u32)
    requires
        session_wf(s),
        s.phase == Phase::AwaitGroupMkdir,
    ensures
        run(s, seq![EventView::Done, EventView::Done, EventView::Done, EventView::Pid(pid)])
            == seq![
            ActionView::WriteFile {
                path: group_file(s.container.cgroup_name, "pids.max"@),
                content: decimal(s.container.max_pids as nat),
                mode: FILE_MODE,
            },
            ActionView::WriteFile {
                path: group_file(s.container.cgroup_name, "notify_on_release"@),
                content: "1"@,
                mode: FILE_MODE,
            },
            ActionView::QueryPid,
            ActionView::WriteFile {
                path: group_file(s.container.cgroup_name, "cgroup.procs"@),
                content: decimal(pid as nat),
                mode: FILE_MODE,
            },
        ],
{
    let evs = seq![EventView::Done, EventView::Done, EventView::Done, EventView::Pid(pid)];
    reveal_with_fuel(run, 5);
    assert(evs.drop_first() =~= seq![EventView::Done, EventView::Done, EventView::Pid(pid)]);
    assert(evs.drop_first().drop_first() =~= seq![EventView::Done, EventView::Pid(pid)]);
    assert(evs.drop_first().drop_first().drop_first() =~= seq![EventView::Pid(pid)]);
    assert(seq![EventView::Pid(pid)].drop_first() =~= Seq::<EventView>::empty());
    assert(run(s, evs) =~= seq![
        step(s, evs[0]).1,
        step(step(s, evs[0]).0, EventView::Done).1,
        step(step(step(s, evs[0]).0, EventView::Done).0, EventView::Done).1,
        step(step(step(step(s, evs[0]).0, EventView::Done).0, EventView::Done).0, EventView::Pid(pid)).1,
    ]);
}

/// A control group left by an earlier run is replaced: when the probe at the
/// start of setup finds its directory, the directory is relaxed, removed and
/// created afresh, whatever the outcome of the relaxing and the removal.
pub proof fn stale_group_replaced(c: ContainerView, e1: EventView, e2: EventView)
    requires
        valid(c),
    ensures
        run(
            initial(c),
            seq![EventView::Done, EventView::Done, EventView::Done, EventView::Exists(true), e1, e2],
        ) == seq![
            ActionView::SetHostname { name: c.hostname },
            ActionView::BindMount { path: c.chroot_path },
            ActionView::ProbeDir { path: cgroup_dir(c.cgroup_name) },
            ActionView::RelaxPermissions { path: cgroup_dir(c.cgroup_name), mode: RELAXED_MODE },
            ActionView::RemoveDirAll { path: cgroup_dir(c.cgroup_name) },
            ActionView::MakeDir { path: cgroup_dir(c.cgroup_name), mode: DIR_MODE },
        ],
{
    let evs = seq![EventView::Done, EventView::Done, EventView::Done, EventView::Exists(true), e1, e2];
    reveal_with_fuel(run, 7);
    let s0 = initial(c);
    let s1 = step(s0, EventView::Done).0;
    let s2 = step(s1, EventView::Done).0;
    let s3 = step(s2, EventView::Done).0;
    let s4 = step(s3, EventView::Exists(true)).0;
    let s5 = step(s4, e1).0;
    assert(evs.drop_first() =~= seq![EventView::Done, EventView::Done, EventView::Exists(true), e1, e2]);
    assert(evs.drop_first().drop_first() =~= seq![EventView::Done, EventView::Exists(true), e1, e2]);
    assert(evs.drop_first().drop_first().drop_first() =~= seq![EventView::Exists(true), e1, e2]);
    assert(seq![EventView::Exists(true), e1, e2].drop_first() =~= seq![e1, e2]);
    assert(seq![e1, e2].drop_first() =~= seq![e2]);
    assert(seq![e2].drop_first() =~= Seq::<EventView>::empty());
    assert(run(s0, evs) =~= seq![
        step(s0, EventView::Done).1,
        step(s1, EventView::Done).1,
        step(s2, EventView::Done).1,
        step(s3, EventView::Exists(true)).1,
        step(s4, e1).1,
        step(s5, e2).1,
    ]);
}

/// The old root is parked under the new root: once the working directory `d`
/// is known, the directory probed, cleared if it exists, and created is `d`
/// joined with the old-root name.
pub proof fn old_root_under_new_root(s: SessionView, d: Seq<char>, found: bool)
    requires
        session_wf(s),
        s.phase == Phase::AwaitCwd,
    ensures
        run(s, seq![EventView::Cwd(d), EventView::Exists(found)]) == seq![
            ActionView::ProbeDir { path: joined(d, old_root_name()) },
            if found {
                ActionView::RelaxPermissions { path: joined(d, old_root_name()), mode: RELAXED_MODE }
            } else {
                ActionView::MakeDir { path: joined(d, old_root_name()), mode: DIR_MODE }
            },
        ],
{
    let evs = seq![EventView::Cwd(d), EventView::Exists(found)];
    reveal_with_fuel(run, 3);
    assert(evs.drop_first() =~= seq![EventView::Exists(found)]);
    assert(seq![EventView::Exists(found)].drop_first() =~= Seq::<EventView>::empty());
    let s1 = step(s, evs[0]).0;
    assert(run(s, evs) =~= seq![step(s, evs[0]).1, step(s1, EventView::Exists(found)).1]);
}

/// Pivoting leaves the working directory at `/`: the pivot makes the working
/// directory (the new root) the root and parks the old root in its
/// subdirectory; on success the next step changes to `/` and mounts `/proc`.
/// A failed pivot falls back to a chroot into the new root, then does the same.
pub proof fn pivot_ends_at_root(s: SessionView, e: EventView)
    requires
        session_wf(s),
        s.phase == Phase::AwaitOldRootMkdir,
    ensures
        run(s, seq![e, EventView::Done, EventView::Done]) == seq![
            ActionView::PivotRoot { new_root: "."@, put_old: old_root_name() },
            ActionView::ChangeDir { path: "/"@ },
            ActionView::MountProc,
        ],
        run(s, seq![e, EventView::Failed, EventView::Done, EventView::Done]) == seq![
            ActionView::PivotRoot { new_root: "."@, put_old: old_root_name() },
            ActionView::Chroot { path: "."@ },
            ActionView::ChangeDir { path: "/"@ },
            ActionView::MountProc,
        ],
{
    reveal_with_fuel(run, 5);
    let s1 = step(s, e).0;
    let evs = seq![e, EventView::Done, EventView::Done];
    assert(evs.drop_first() =~= seq![EventView::Done, EventView::Done]);
    assert(seq![EventView::Done, EventView::Done].drop_first() =~= seq![EventView::Done]);
    assert(seq![EventView::Done].drop_first() =~= Seq::<EventView>::empty());
    let s2 = step(s1, EventView::Done).0;
    assert(run(s, evs) =~= seq![
        step(s, e).1,
        step(s1, EventView::Done).1,
        step(s2, EventView::Done).1,
    ]);
    let fevs = seq![e, EventView::Failed, EventView::Done, EventView::Done];
    assert(fevs.drop_first() =~= seq![EventView::Failed, EventView::Done, EventView::Done]);
    assert(seq![EventView::Failed, EventView::Done, EventView::Done].drop_first() =~= seq![
        EventView::Done,
        EventView::Done,
    ]);
    let f2 = step(s1, EventView::Failed).0;
    let f3 = step(f2, EventView::Done).0;
    assert(run(s, fevs) =~= seq![
        step(s, e).1,
        step(s1, EventView::Failed).1,
        step(f2, EventView::Done).1,
        step(f3, EventView::Done).1,
    ]);
}

/// The control group of a valid configuration stands directly in the pids
/// hierarchy: its name is one plain path component, and its directory is
/// `/sys/fs/cgroup/pids/` followed by that name.
pub proof fn group_dir_is_fixed(c: ContainerView)
    requires
        valid(c),
    ensures
        plain_name(c.cgroup_name),
        cgroup_dir(c.cgroup_name) == "/sys/fs/cgroup/pids/"@ + c.cgroup_name,
        forall|f: Seq<char>|
            #[trigger] group_file(c.cgroup_name, f) == cgroup_dir(c.cgroup_name) + "/"@ + f,
{
}

proof fn lemma_run_four(s: SessionView, evs: Seq<EventView>)
    requires
        evs.len() == 4,
    ensures
        run(s, evs) == seq![
            step(s, evs[0]).1,
            step(step(s, evs[0]).0, evs[1]).1,
            step(step(step(s, evs[0]).0, evs[1]).0, evs[2]).1,
            step(step(step(step(s, evs[0]).0, evs[1]).0, evs[2]).0, evs[3]).1,
        ],
{
    reveal_with_fuel(run, 5);
    let r1 = evs.drop_first();
    let r2 = r1.drop_first();
    let r3 = r2.drop_first();
    assert(r1[0] == evs[1] && r2[0] == evs[2] && r3[0] == evs[3]);
    assert(r3.drop_first() =~= Seq::<EventView>::empty());
    assert(run(s, evs) =~= seq![
        step(s, evs[0]).1,
        step(step(s, evs[0]).0, evs[1]).1,
        step(step(step(s, evs[0]).0, evs[1]).0, evs[2]).1,
        step(step(step(step(s, evs[0]).0, evs[1]).0, evs[2]).0, evs[3]).1,
    ]);
}

/// The child ends with the command's own exit status: after the command exits
/// with `code`, `/proc` is unmounted first, and within the three teardown
/// steps that follow the run finishes with `code`, whatever their outcomes.
/// When every teardown step succeeds, the parked old root, if any, is detached
/// and its directory removed before the finish.
pub proof fn child_reports_command_code(
    s: SessionView,
    code: i32,
    e1: EventView,
    e2: EventView,
    e3: EventView,
)
    requires
        session_wf(s),
        s.phase == Phase::AwaitCommand,
    ensures
        run(s, seq![EventView::Exited(code), e1, e2, e3])[0] == ActionView::UnmountProc,
        run(s, seq![EventView::Exited(code), e1, e2, e3])[3] is Finish,
        ending_code(run(s, seq![EventView::Exited(code), e1, e2, e3])[3]) == Some(code),
        s.old_root_parked ==> run(
            s,
            seq![EventView::Exited(code), EventView::Done, EventView::Done, EventView::Done],
        ) == seq![
            ActionView::UnmountProc,
            ActionView::DetachOldRoot { path: parked_old_root() },
            ActionView::RemoveDir { path: parked_old_root() },
            ActionView::Finish { code, clean: true },
        ],
{
    lemma_run_four(s, seq![EventView::Exited(code), e1, e2, e3]);
    lemma_run_four(
        s,
        seq![EventView::Exited(code), EventView::Done, EventView::Done, EventView::Done],
    );
}

/// A setup failure after the pivot still releases the parked old root: when
/// mounting `/proc` fails, the old root is detached and its directory removed
/// before the run ends with that failure.
pub proof fn failure_after_pivot_releases_old_root(s: SessionView, e: EventView)
    requires
        session_wf(s),
        s.phase == Phase::AwaitMountProc,
        s.old_root_parked,
    ensures
        run(s, seq![EventView::Failed, EventView::Done, e, e]) == seq![
            ActionView::DetachOldRoot { path: parked_old_root() },
            ActionView::RemoveDir { path: parked_old_root() },
            ActionView::Abort { error: Failure::MountProc },
            ActionView::Abort { error: Failure::MountProc },
        ],
{
    lemma_run_four(s, seq![EventView::Failed, EventView::Done, e, e]);
}

/// The host removes the control group even when waiting for the child fails,
/// then ends with that failure.
pub proof fn host_releases_group_after_failed_wait(l: LaunchView, e: EventView)
    requires
        l.phase == LaunchPhase::AwaitChild,
    ensures
        launch_run(l, seq![EventView::Failed, e]) == seq![
            ActionView::RemoveDirAll { path: cgroup_dir(l.container.cgroup_name) },
            ActionView::Abort { error: Failure::WaitFailed },
        ],
{
    let evs = seq![EventView::Failed, e];
    reveal_with_fuel(launch_run, 3);
    assert(evs.drop_first() =~= seq![e]);
    assert(seq![e].drop_first() =~= Seq::<EventView>::empty());
    let l1 = launch_step(l, evs[0]).0;
    assert(launch_run(l, evs) =~= seq![launch_step(l, evs[0]).1, launch_step(l1, e).1]);
}

/// The host ends with the child's exit status: after the child exits with
/// `code`, its control group is removed and the launch finishes with `code`,
/// whether or not the removal succeeded.
pub proof fn host_reports_child_code(l: LaunchView, code: i32, e: EventView)
    requires
        l.phase == LaunchPhase::AwaitChild,
    ensures
        launch_run(l, seq![EventView::Exited(code), e]) == seq![
            ActionView::RemoveDirAll { path: cgroup_dir(l.container.cgroup_name) },
            ActionView::Finish { code, clean: e is Done },
        ],
        ending_code(launch_run(l, seq![EventView::Exited(code), e])[1]) == Some(code),
{
    let evs = seq![EventView::Exited(code), e];
    reveal_with_fuel(launch_run, 3);
    assert(evs.drop_first() =~= seq![e]);
    assert(seq![e].drop_first() =~= Seq::<EventView>::empty());
    let l1 = launch_step(l, evs[0]).0;
    assert(launch_run(l, evs) =~= seq![launch_step(l, evs[0]).1, launch_step(l1, e).1]);
}

proof fn lemma_launch_failure_is_final(l: LaunchView, evs: Seq<EventView>)
    requires
        l.phase is Failed,
    ensures
        forall|i: int|
            0 <= i < launch_run(l, evs).len() ==> #[trigger] launch_run(l, evs)[i] == (
            ActionView::Abort { error: l.phase->Failed_error }),
    decreases evs.len(),
{
    if evs.len() > 0 {
        lemma_launch_failure_is_final(launch_step(l, evs[0]).0, evs.drop_first());
        assert forall|i: int| 0 < i < launch_run(l, evs).len() implies launch_run(l, evs)[i]
            == launch_run(launch_step(l, evs[0]).0, evs.drop_first())[i - 1] by {}
    }
}

/// Setup fails fast when the root filesystem does not exist: the launch ends
/// with that failure and no isolated child is ever created.
pub proof fn missing_root_fails_fast(l: LaunchView, evs: Seq<EventView>)
    requires
        l.phase == LaunchPhase::AwaitRootProbe,
        evs.len() > 0,
        evs[0] == EventView::Exists(false),
    ensures
        forall|i: int|
            0 <= i < launch_run(l, evs).len() ==> #[trigger] launch_run(l, evs)[i] == (
            ActionView::Abort { error: Failure::RootMissing }),
{
    let t = launch_step(l, evs[0]).0;
    lemma_launch_failure_is_final(t, evs.drop_first());
    assert forall|i: int| 0 < i < launch_run(l, evs).len() implies launch_run(l, evs)[i]
        == launch_run(t, evs.drop_first())[i - 1] by {}
}

} // verus!
