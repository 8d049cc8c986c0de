use vstd::prelude::*;

use crate::config::{strings_view, valid, Container, ContainerView};
use crate::decimal::{decimal, to_decimal};
use crate::paths::{
    cgroup_dir, cgroup_path, group_file, group_file_path, joined, old_root_name, parked_old_root,
    pwd_join,
};
use crate::protocol::{
    Action, ActionView, Event, EventView, Failure, Outcome, DIR_MODE, FILE_MODE, RELAXED_MODE,
};

verus! {

/// Where the isolated child stands in its setup, command and teardown: each
/// phase waits for the outcome of the action that entered it.
#[derive(Clone, Copy, Debug, PartialEq, Eq, Structural)]
pub enum Phase {
    AwaitPrivate,
    AwaitHostname,
    AwaitBind,
    AwaitGroupProbe,
    AwaitGroupRelax,
    AwaitGroupRemove,
    AwaitGroupMkdir,
    AwaitGroupRecheck,
    AwaitPidsMax,
    AwaitNotify,
    AwaitPid,
    AwaitProcs,
    AwaitChdirRoot,
    AwaitCwd,
    AwaitOldRootProbe,
    AwaitOldRootRelax,
    AwaitOldRootRemove,
    AwaitOldRootMkdir,
    AwaitPivot,
    AwaitChroot,
    AwaitChdirSlash,
    AwaitMountProc,
    AwaitCommand,
    AwaitUnmount { end: Outcome, clean: bool },
    AwaitOldRootDetach { end: Outcome, clean: bool },
    AwaitOldRootRmdir { end: Outcome, clean: bool },
    Finished { code: i32, clean: bool },
    Failed { error: Failure },
}

/// The state of one isolated run inside the cloned child.
pub struct Session {
    pub container: Container,
    pub phase: Phase,
    pub cgroup_dir: String,
    pub old_root: String,
    pub proc_mounted: bool,
    pub old_root_parked: bool,
}

/// The mathematical content of a [`Session`]; its control group directory
/// follows from the container.
pub struct SessionView {
    pub container: ContainerView,
    pub phase: Phase,
    pub old_root: Seq<char>,
    pub proc_mounted: bool,
    pub old_root_parked: bool,
}

impl View for Session {
    type V = SessionView;

    open spec fn view(&self) -> SessionView {
        SessionView {
            container: self.container@,
            phase: self.phase,
            old_root: self.old_root@,
            proc_mounted: self.proc_mounted,
            old_root_parked: self.old_root_parked,
        }
    }
}

/// A phase after which nothing more is done.
pub open spec fn is_terminal(p: Phase) -> bool {
    p is Finished || p is Failed
}

/// The position of a phase in the protocol; every step moves forward.
pub open spec fn rank(p: Phase) -> nat {
    match p {
        Phase::AwaitPrivate => 0,
        Phase::AwaitHostname => 1,
        Phase::AwaitBind => 2,
        Phase::AwaitGroupProbe => 3,
        Phase::AwaitGroupRelax => 4,
        Phase::AwaitGroupRemove => 5,
        Phase::AwaitGroupMkdir => 6,
        Phase::AwaitGroupRecheck => 7,
        Phase::AwaitPidsMax => 8,
        Phase::AwaitNotify => 9,
        Phase::AwaitPid => 10,
        Phase::AwaitProcs => 11,
        Phase::AwaitChdirRoot => 12,
        Phase::AwaitCwd => 13,
        Phase::AwaitOldRootProbe => 14,
        Phase::AwaitOldRootRelax => 15,
        Phase::AwaitOldRootRemove => 16,
        Phase::AwaitOldRootMkdir => 17,
        Phase::AwaitPivot => 18,
        Phase::AwaitChroot => 19,
        Phase::AwaitChdirSlash => 20,
        Phase::AwaitMountProc => 21,
        Phase::AwaitCommand => 22,
        Phase::AwaitUnmount { .. } => 23,
        Phase::AwaitOldRootDetach { .. } => 24,
        Phase::AwaitOldRootRmdir { .. } => 25,
        Phase::Finished { .. } => 26,
        Phase::Failed { .. } => 26,
    }
}

/// A session state that the protocol can reach.
pub open spec fn session_wf(s: SessionView) -> bool {
    &&& valid(s.container)
    &&& rank(s.phase) <= rank(Phase::AwaitMountProc) ==> !s.proc_mounted
    &&& (s.phase is AwaitCommand || s.phase is AwaitUnmount) ==> s.proc_mounted
    &&& rank(s.phase) <= rank(Phase::AwaitPivot) ==> !s.old_root_parked
    &&& s.phase is AwaitOldRootDetach ==> s.old_root_parked
    &&& s.phase is AwaitOldRootRmdir ==> !s.old_root_parked
    &&& (s.phase matches Phase::AwaitOldRootDetach { clean, .. } && clean) ==> !s.proc_mounted
    &&& (s.phase matches Phase::AwaitOldRootRmdir { clean, .. } && clean) ==> !s.proc_mounted
    &&& (s.phase matches Phase::Finished { clean, .. } && clean) ==> !s.proc_mounted
        && !s.old_root_parked
}

/// The first state of a run of `c`.
pub open spec fn initial(c: ContainerView) -> SessionView {
    SessionView {
        container: c,
        phase: Phase::AwaitPrivate,
        old_root: Seq::empty(),
        proc_mounted: false,
        old_root_parked: false,
    }
}

/// Moves to `phase` and asks for `a`.
pub open spec fn go(s: SessionView, phase: Phase, a: ActionView) -> (SessionView, ActionView) {
    (SessionView { phase, ..s }, a)
}

/// Ends the run as `end` says; `clean` tells whether teardown succeeded.
pub open spec fn finish(s: SessionView, end: Outcome, clean: bool) -> (SessionView, ActionView) {
    match end {
        Outcome::Exited { code } => go(
            s,
            Phase::Finished { code, clean },
            ActionView::Finish { code, clean },
        ),
        Outcome::Failed { error } => go(s, Phase::Failed { error }, ActionView::Abort { error }),
    }
}

/// Releases the parked old root, if any, then ends the run.
pub open spec fn release_old_root(s: SessionView, end: Outcome, clean: bool) -> (
    SessionView,
    ActionView,
) {
    if s.old_root_parked {
        go(
            s,
            Phase::AwaitOldRootDetach { end, clean },
            ActionView::DetachOldRoot { path: parked_old_root() },
        )
    } else {
        finish(s, end, clean)
    }
}

/// Teardown: releases what setup acquired, `/proc` first, then the parked
/// old root, then ends the run.
pub open spec fn release(s: SessionView, end: Outcome, clean: bool) -> (SessionView, ActionView) {
    if s.proc_mounted {
        go(s, Phase::AwaitUnmount { end, clean }, ActionView::UnmountProc)
    } else {
        release_old_root(s, end, clean)
    }
}

/// Ends the run with `f`, after releasing what setup acquired.
pub open spec fn fail(s: SessionView, f: Failure) -> (SessionView, ActionView) {
    release(s, Outcome::Failed { error: f }, true)
}

/// The first control file written: the process limit.
pub open spec fn write_pids_max(s: SessionView) -> (SessionView, ActionView) {
    go(
        s,
        Phase::AwaitPidsMax,
        ActionView::WriteFile {
            path: group_file(s.container.cgroup_name, "pids.max"@),
            content: decimal(s.container.max_pids as nat),
            mode: FILE_MODE,
        },
    )
}

/// The protocol: from a state and the outcome of the last action, the next
/// state and the next action.
///
/// Fatal steps end the run on failure, after releasing what was acquired;
/// removing leftovers of an earlier run is best effort; a failed pivot falls
/// back to a chroot into the new root; the command's exit status is kept
/// whether or not teardown succeeds.
pub open spec fn step(s: SessionView, e: EventView) -> (SessionView, ActionView) {
    let c = s.container;
    let dir = cgroup_dir(c.cgroup_name);
    let done = e is Done;
    match s.phase {
        Phase::AwaitPrivate => if done {
            go(s, Phase::AwaitHostname, ActionView::SetHostname { name: c.hostname })
        } else {
            fail(s, Failure::MountPrivate)
        },
        Phase::AwaitHostname => if done {
            go(s, Phase::AwaitBind, ActionView::BindMount { path: c.chroot_path })
        } else {
            fail(s, Failure::Hostname)
        },
        Phase::AwaitBind => if done {
            go(s, Phase::AwaitGroupProbe, ActionView::ProbeDir { path: dir })
        } else {
            fail(s, Failure::BindMount)
        },
        Phase::AwaitGroupProbe => match e {
            EventView::Exists(true) => go(
                s,
                Phase::AwaitGroupRelax,
                ActionView::RelaxPermissions { path: dir, mode: RELAXED_MODE },
            ),
            EventView::Exists(false) => go(
                s,
                Phase::AwaitGroupMkdir,
                ActionView::MakeDir { path: dir, mode: DIR_MODE },
            ),
            _ => fail(s, Failure::CgroupDir),
        },
        Phase::AwaitGroupRelax => go(
            s,
            Phase::AwaitGroupRemove,
            ActionView::RemoveDirAll { path: dir },
        ),
        Phase::AwaitGroupRemove => go(
            s,
            Phase::AwaitGroupMkdir,
            ActionView::MakeDir { path: dir, mode: DIR_MODE },
        ),
        Phase::AwaitGroupMkdir => if done {
            write_pids_max(s)
        } else {
            go(s, Phase::AwaitGroupRecheck, ActionView::ProbeDir { path: dir })
        },
        Phase::AwaitGroupRecheck => if e == EventView::Exists(true) {
            write_pids_max(s)
        } else {
            fail(s, Failure::CgroupDir)
        },
        Phase::AwaitPidsMax => if done {
            go(
                s,
                Phase::AwaitNotify,
                ActionView::WriteFile {
                    path: group_file(c.cgroup_name, "notify_on_release"@),
                    content: "1"@,
                    mode: FILE_MODE,
                },
            )
        } else {
            fail(s, Failure::CgroupWrite)
        },
        Phase::AwaitNotify => if done {
            go(s, Phase::AwaitPid, ActionView::QueryPid)
        } else {
            fail(s, Failure::CgroupWrite)
        },
        Phase::AwaitPid => match e {
            EventView::Pid(p) => go(
                s,
                Phase::AwaitProcs,
                ActionView::WriteFile {
                    path: group_file(c.cgroup_name, "cgroup.procs"@),
                    content: decimal(p as nat),
                    mode: FILE_MODE,
                },
            ),
            _ => fail(s, Failure::Pid),
        },
        Phase::AwaitProcs => if done {
            go(s, Phase::AwaitChdirRoot, ActionView::ChangeDir { path: c.chroot_path })
        } else {
            fail(s, Failure::CgroupWrite)
        },
        Phase::AwaitChdirRoot => if done {
            go(s, Phase::AwaitCwd, ActionView::QueryCwd)
        } else {
            fail(s, Failure::ChangeDir)
        },
        Phase::AwaitCwd => match e {
            EventView::Cwd(d) => {
                let o = joined(d, old_root_name());
                (
                    SessionView { phase: Phase::AwaitOldRootProbe, old_root: o, ..s },
                    ActionView::ProbeDir { path: o },
                )
            },
            _ => fail(s, Failure::CurrentDir),
        },
        Phase::AwaitOldRootProbe => match e {
            EventView::Exists(true) => go(
                s,
                Phase::AwaitOldRootRelax,
                ActionView::RelaxPermissions { path: s.old_root, mode: RELAXED_MODE },
            ),
            EventView::Exists(false) => go(
                s,
                Phase::AwaitOldRootMkdir,
                ActionView::MakeDir { path: s.old_root, mode: DIR_MODE },
            ),
            _ => fail(s, Failure::OldRoot),
        },
        Phase::AwaitOldRootRelax => go(
            s,
            Phase::AwaitOldRootRemove,
            ActionView::RemoveDirAll { path: s.old_root },
        ),
        Phase::AwaitOldRootRemove => go(
            s,
            Phase::AwaitOldRootMkdir,
            ActionView::MakeDir { path: s.old_root, mode: DIR_MODE },
        ),
        Phase::AwaitOldRootMkdir => go(
            s,
            Phase::AwaitPivot,
            ActionView::PivotRoot { new_root: "."@, put_old: old_root_name() },
        ),
        Phase::AwaitPivot => if done {
            (
                SessionView { phase: Phase::AwaitChdirSlash, old_root_parked: true, ..s },
                ActionView::ChangeDir { path: "/"@ },
            )
        } else {
            go(s, Phase::AwaitChroot, ActionView::Chroot { path: "."@ })
        },
        Phase::AwaitChroot => if done {
            go(s, Phase::AwaitChdirSlash, ActionView::ChangeDir { path: "/"@ })
        } else {
            fail(s, Failure::Chroot)
        },
        Phase::AwaitChdirSlash => if done {
            go(s, Phase::AwaitMountProc, ActionView::MountProc)
        } else {
            fail(s, Failure::ChangeDir)
        },
        Phase::AwaitMountProc => if done {
            (
                SessionView { phase: Phase::AwaitCommand, proc_mounted: true, ..s },
                ActionView::RunCommand { program: c.args[0], args: c.args.drop_first() },
            )
        } else {
            fail(s, Failure::MountProc)
        },
        Phase::AwaitCommand => match e {
            EventView::Exited(code) => release(s, Outcome::Exited { code }, true),
            _ => release(s, Outcome::Failed { error: Failure::Spawn }, true),
        },
        Phase::AwaitUnmount { end, clean } => if done {
            release_old_root(SessionView { proc_mounted: false, ..s }, end, clean)
        } else {
            release_old_root(s, end, false)
        },
        Phase::AwaitOldRootDetach { end, clean } => if done {
            (
                SessionView {
                    phase: Phase::AwaitOldRootRmdir { end, clean },
                    old_root_parked: false,
                    ..s
                },
                ActionView::RemoveDir { path: parked_old_root() },
            )
        } else {
            finish(s, end, false)
        },
        Phase::AwaitOldRootRmdir { end, clean } => finish(s, end, clean),
        Phase::Finished { code, clean } => (s, ActionView::Finish { code, clean }),
        Phase::Failed { error } => (s, ActionView::Abort { error }),
    }
}

/// The actions that a session in state `s` asks for, one for each outcome in `evs`.
pub open spec fn run(s: SessionView, evs: Seq<EventView>) -> Seq<ActionView>
    decreases evs.len(),
{
    if evs.len() == 0 {
        Seq::empty()
    } else {
        seq![step(s, evs[0]).1] + run(step(s, evs[0]).0, evs.drop_first())
    }
}

/// A valid configuration, with the group directory that follows from it.
pub open spec fn base_inv(s: &Session) -> bool {
    &&& valid(s.container@)
    &&& s.cgroup_dir@ == cgroup_dir(s.container.cgroup_name@)
}

/// A reachable session state.
pub open spec fn session_inv(s: &Session) -> bool {
    &&& base_inv(s)
    &&& session_wf(s@)
}

/// The control file `file` of the group `name`, to hold `content`.
fn control_file(name: &str, file: &str, content: String) -> (r: Action)
    ensures
        r@ == (ActionView::WriteFile {
            path: group_file(name@, file@),
            content: content@,
            mode: FILE_MODE,
        }),
{
    Action::WriteFile { path: group_file_path(name, file), content, mode: FILE_MODE }
}

/// The arguments that follow the program name.
fn tail_args(args: &Vec<String>) -> (r: Vec<String>)
    requires
        args@.len() > 0,
    ensures
        strings_view(r@) == strings_view(args@).drop_first(),
{
    let mut r: Vec<String> = Vec::new();
    let mut i: usize = 1;
    while i < args.len()
        invariant
            1 <= i <= args@.len(),
            r@.len() == i - 1,
            forall|j: int| 0 <= j < r@.len() ==> #[trigger] r@[j]@ == args@[j + 1]@,
        decreases args@.len() - i,
    {
        let a = args[i].clone();
        r.push(a);
        i = i + 1;
    }
    proof {
        assert(strings_view(r@) =~= strings_view(args@).drop_first());
    }
    r
}

impl Session {
    /// Starts a run of `container` inside the isolated child; the first action
    /// makes the mount namespace private.
    pub fn new(container: Container) -> (r: (Session, Action))
        requires
            valid(container@),
        ensures
            session_inv(&r.0),
            r.0@ == initial(container@),
            r.1@ == ActionView::MakeMountsPrivate,
    {
        let cgroup_dir = cgroup_path(container.cgroup_name.as_str());
        let s = Session {
            container,
            phase: Phase::AwaitPrivate,
            cgroup_dir,
            old_root: String::new(),
            proc_mounted: false,
            old_root_parked: false,
        };
        (s, Action::MakeMountsPrivate)
    }

    fn finish(&mut self, end: Outcome, clean: bool) -> (r: Action)
        requires
            base_inv(old(self)),
            clean ==> !old(self).proc_mounted && !old(self).old_root_parked,
        ensures
            session_inv(final(self)),
            (final(self)@, r@) == finish(old(self)@, end, clean),
    {
        match end {
            Outcome::Exited { code } => {
                self.phase = Phase::Finished { code, clean };
                Action::Finish { code, clean }
            },
            Outcome::Failed { error } => {
                self.phase = Phase::Failed { error };
                Action::Abort { error }
            },
        }
    }

    fn release_old_root(&mut self, end: Outcome, clean: bool) -> (r: Action)
        requires
            base_inv(old(self)),
            clean ==> !old(self).proc_mounted,
        ensures
            session_inv(final(self)),
            (final(self)@, r@) == release_old_root(old(self)@, end, clean),
    {
        if self.old_root_parked {
            self.phase = Phase::AwaitOldRootDetach { end, clean };
            Action::DetachOldRoot { path: String::from_str("/oldroot") }
        } else {
            self.finish(end, clean)
        }
    }

    fn release(&mut self, end: Outcome, clean: bool) -> (r: Action)
        requires
            base_inv(old(self)),
        ensures
            session_inv(final(self)),
            (final(self)@, r@) == release(old(self)@, end, clean),
    {
        if self.proc_mounted {
            self.phase = Phase::AwaitUnmount { end, clean };
            Action::UnmountProc
        } else {
            self.release_old_root(end, clean)
        }
    }

    fn fail(&mut self, f: Failure) -> (r: Action)
        requires
            base_inv(old(self)),
        ensures
            session_inv(final(self)),
            (final(self)@, r@) == fail(old(self)@, f),
    {
        self.release(Outcome::Failed { error: f }, true)
    }

    /// Takes the outcome of the last action and gives the next one.
    pub fn next(&mut self, e: Event) -> (r: Action)
        requires
            session_inv(old(self)),
        ensures
            session_inv(final(self)),
            (final(self)@, r@) == step(old(self)@, e@),
    {
        proof {
            reveal_strlit("1");
            reveal_strlit(".");
            reveal_strlit("/");
        }
        let done = matches!(e, Event::Done);
        match self.phase {
            Phase::AwaitPrivate => if done {
                self.phase = Phase::AwaitHostname;
                Action::SetHostname { name: self.container.hostname.clone() }
            } else {
                self.fail(Failure::MountPrivate)
            },
            Phase::AwaitHostname => if done {
                self.phase = Phase::AwaitBind;
                Action::BindMount { path: self.container.chroot_path.clone() }
            } else {
                self.fail(Failure::Hostname)
            },
            Phase::AwaitBind => if done {
                self.phase = Phase::AwaitGroupProbe;
                Action::ProbeDir { path: self.cgroup_dir.clone() }
            } else {
                self.fail(Failure::BindMount)
            },
            Phase::AwaitGroupProbe => match e {
                Event::Exists(true) => {
                    self.phase = Phase::AwaitGroupRelax;
                    Action::RelaxPermissions { path: self.cgroup_dir.clone(), mode: RELAXED_MODE }
                },
                Event::Exists(false) => {
                    self.phase = Phase::AwaitGroupMkdir;
                    Action::MakeDir { path: self.cgroup_dir.clone(), mode: DIR_MODE }
                },
                _ => self.fail(Failure::CgroupDir),
            },
            Phase::AwaitGroupRelax => {
                self.phase = Phase::AwaitGroupRemove;
                Action::RemoveDirAll { path: self.cgroup_dir.clone() }
            },
            Phase::AwaitGroupRemove => {
                self.phase = Phase::AwaitGroupMkdir;
                Action::MakeDir { path: self.cgroup_dir.clone(), mode: DIR_MODE }
            },
            Phase::AwaitGroupMkdir => if done {
                self.write_pids_max()
            } else {
                self.phase = Phase::AwaitGroupRecheck;
                Action::ProbeDir { path: self.cgroup_dir.clone() }
            },
            Phase::AwaitGroupRecheck => if matches!(e, Event::Exists(true)) {
                self.write_pids_max()
            } else {
                self.fail(Failure::CgroupDir)
            },
            Phase::AwaitPidsMax => if done {
                self.phase = Phase::AwaitNotify;
                control_file(
                    self.container.cgroup_name.as_str(),
                    "notify_on_release",
                    String::from_str("1"),
                )
            } else {
                self.fail(Failure::CgroupWrite)
            },
            Phase::AwaitNotify => if done {
                self.phase = Phase::AwaitPid;
                Action::QueryPid
            } else {
                self.fail(Failure::CgroupWrite)
            },
            Phase::AwaitPid => match e {
                Event::Pid(p) => {
                    self.phase = Phase::AwaitProcs;
                    control_file(
                        self.container.cgroup_name.as_str(),
                        "cgroup.procs",
                        to_decimal(p as u64),
                    )
                },
                _ => self.fail(Failure::Pid),
            },
            Phase::AwaitProcs => if done {
                self.phase = Phase::AwaitChdirRoot;
                Action::ChangeDir { path: self.container.chroot_path.clone() }
            } else {
                self.fail(Failure::CgroupWrite)
            },
            Phase::AwaitChdirRoot => if done {
                self.phase = Phase::AwaitCwd;
                Action::QueryCwd
            } else {
                self.fail(Failure::ChangeDir)
            },
            Phase::AwaitCwd => match e {
                Event::Cwd(d) => {
                    self.old_root = pwd_join(d.as_str(), "oldroot");
                    self.phase = Phase::AwaitOldRootProbe;
                    Action::ProbeDir { path: self.old_root.clone() }
                },
                _ => self.fail(Failure::CurrentDir),
            },
            Phase::AwaitOldRootProbe => match e {
                Event::Exists(true) => {
                    self.phase = Phase::AwaitOldRootRelax;
                    Action::RelaxPermissions { path: self.old_root.clone(), mode: RELAXED_MODE }
                },
                Event::Exists(false) => {
                    self.phase = Phase::AwaitOldRootMkdir;
                    Action::MakeDir { path: self.old_root.clone(), mode: DIR_MODE }
                },
                _ => self.fail(Failure::OldRoot),
            },
            Phase::AwaitOldRootRelax => {
                self.phase = Phase::AwaitOldRootRemove;
                Action::RemoveDirAll { path: self.old_root.clone() }
            },
            Phase::AwaitOldRootRemove => {
                self.phase = Phase::AwaitOldRootMkdir;
                Action::MakeDir { path: self.old_root.clone(), mode: DIR_MODE }
            },
            Phase::AwaitOldRootMkdir => {
                self.phase = Phase::AwaitPivot;
                Action::PivotRoot {
                    new_root: String::from_str("."),
                    put_old: String::from_str("oldroot"),
                }
            },
            Phase::AwaitPivot => if done {
                self.phase = Phase::AwaitChdirSlash;
                self.old_root_parked = true;
                Action::ChangeDir { path: String::from_str("/") }
            } else {
                self.phase = Phase::AwaitChroot;
                Action::Chroot { path: String::from_str(".") }
            },
            Phase::AwaitChroot => if done {
                self.phase = Phase::AwaitChdirSlash;
                Action::ChangeDir { path: String::from_str("/") }
            } else {
                self.fail(Failure::Chroot)
            },
            Phase::AwaitChdirSlash => if done {
                self.phase = Phase::AwaitMountProc;
                Action::MountProc
            } else {
                self.fail(Failure::ChangeDir)
            },
            Phase::AwaitMountProc => if done {
                self.phase = Phase::AwaitCommand;
                self.proc_mounted = true;
                let program = self.container.args[0].clone();
                let args = tail_args(&self.container.args);
                Action::RunCommand { program, args }
            } else {
                self.fail(Failure::MountProc)
            },
            Phase::AwaitCommand => match e {
                Event::Exited(code) => self.release(Outcome::Exited { code }, true),
                _ => self.release(Outcome::Failed { error: Failure::Spawn }, true),
            },
            Phase::AwaitUnmount { end, clean } => if done {
                self.proc_mounted = false;
                self.release_old_root(end, clean)
            } else {
                self.release_old_root(end, false)
            },
            Phase::AwaitOldRootDetach { end, clean } => if done {
                self.old_root_parked = false;
                self.phase = Phase::AwaitOldRootRmdir { end, clean };
                Action::RemoveDir { path: String::from_str("/oldroot") }
            } else {
                self.finish(end, false)
            },
            Phase::AwaitOldRootRmdir { end, clean } => self.finish(end, clean),
            Phase::Finished { code, clean } => Action::Finish { code, clean },
            Phase::Failed { error } => Action::Abort { error },
        }
    }

    fn write_pids_max(&mut self) -> (r: Action)
        requires
            session_inv(old(self)),
            rank(old(self).phase) <= rank(Phase::AwaitGroupRecheck),
        ensures
            session_inv(final(self)),
            (final(self)@, r@) == write_pids_max(old(self)@),
    {
        self.phase = Phase::AwaitPidsMax;
        control_file(
            self.container.cgroup_name.as_str(),
            "pids.max",
            to_decimal(self.container.max_pids as u64),
        )
    }
}

} // verus!
