use cfs::config::{Container, ContainerBuilder};
use cfs::launch::{Launch, LaunchPhase};
use cfs::config::CONFIG_FAILURE_CODE;
use cfs::protocol::{
    Action, Event, Failure, DIR_MODE, FILE_MODE, RELAXED_MODE, SETUP_FAILURE_CODE,
    SPAWN_FAILURE_CODE,
};
use cfs::setup::{Phase, Session};

fn spec(args: &[&str], max_pids: u8) -> Container {
    ContainerBuilder::new()
        .args(args.iter().map(|a| a.to_string()).collect())
        .chroot_path("/tmp/testroot".to_string())
        .hostname("t1")
        .cgroup_name("t1")
        .max_pids(max_pids)
        .create()
}

fn s(v: &str) -> String {
    v.to_string()
}

fn detach() -> Action {
    Action::DetachOldRoot { path: s("/oldroot") }
}

fn remove_old_root() -> Action {
    Action::RemoveDir { path: s("/oldroot") }
}

fn write(path: &str, content: &str) -> Action {
    Action::WriteFile { path: s(path), content: s(content), mode: FILE_MODE }
}

/// Drives a session whose every step succeeds, with no leftovers from earlier
/// runs, up to the command; returns the actions asked for.
fn setup_actions(session: &mut Session, first: Action, pid: u32) -> Vec<Action> {
    let mut actions = vec![first];
    let events = vec![
        Event::Done,          // private mounts
        Event::Done,          // hostname
        Event::Done,          // bind mount
        Event::Exists(false), // group probe
        Event::Done,          // mkdir group
        Event::Done,          // pids.max
        Event::Done,          // notify_on_release
        Event::Pid(pid),      // getpid
        Event::Done,          // cgroup.procs
        Event::Done,          // chdir root
        Event::Cwd(s("/tmp/testroot")),
        Event::Exists(false), // old root probe
        Event::Done,          // mkdir old root
        Event::Done,          // pivot
        Event::Done,          // chdir /
        Event::Done,          // mount proc
    ];
    for e in events {
        actions.push(session.next(e));
    }
    actions
}

#[test]
fn echo_scenario_runs_with_hostname_and_exits_zero() {
    let (mut launch, probe) = Launch::new(spec(&["/bin/echo", "hi"], 5)).unwrap();
    assert_eq!(probe, Action::ProbeDir { path: s("/tmp/testroot") });
    assert_eq!(launch.next(Event::Exists(true)), Action::CloneChild);
    let (mut child, first) = launch.child_session();
    let actions = setup_actions(&mut child, first, 1);
    assert_eq!(
        actions,
        vec![
            Action::MakeMountsPrivate,
            Action::SetHostname { name: s("t1") },
            Action::BindMount { path: s("/tmp/testroot") },
            Action::ProbeDir { path: s("/sys/fs/cgroup/pids/t1") },
            Action::MakeDir { path: s("/sys/fs/cgroup/pids/t1"), mode: DIR_MODE },
            write("/sys/fs/cgroup/pids/t1/pids.max", "5"),
            write("/sys/fs/cgroup/pids/t1/notify_on_release", "1"),
            Action::QueryPid,
            write("/sys/fs/cgroup/pids/t1/cgroup.procs", "1"),
            Action::ChangeDir { path: s("/tmp/testroot") },
            Action::QueryCwd,
            Action::ProbeDir { path: s("/tmp/testroot/oldroot") },
            Action::MakeDir { path: s("/tmp/testroot/oldroot"), mode: DIR_MODE },
            Action::PivotRoot { new_root: s("."), put_old: s("oldroot") },
            Action::ChangeDir { path: s("/") },
            Action::MountProc,
            Action::RunCommand { program: s("/bin/echo"), args: vec![s("hi")] },
        ]
    );
    assert!(child.proc_mounted);
    assert!(child.old_root_parked);
    assert_eq!(child.next(Event::Exited(0)), Action::UnmountProc);
    assert_eq!(child.next(Event::Done), detach());
    assert!(!child.proc_mounted);
    assert_eq!(child.next(Event::Done), remove_old_root());
    assert!(!child.old_root_parked);
    let end = child.next(Event::Done);
    assert_eq!(end, Action::Finish { code: 0, clean: true });
    assert_eq!(end.exit_code(), Some(0));

    assert_eq!(launch.next(Event::Done), Action::WaitChild);
    assert_eq!(
        launch.next(Event::Exited(0)),
        Action::RemoveDirAll { path: s("/sys/fs/cgroup/pids/t1") }
    );
    assert_eq!(launch.next(Event::Done), Action::Finish { code: 0, clean: true });
    assert_eq!(launch.phase, LaunchPhase::Finished { code: 0, clean: true });
}

#[test]
fn zero_pid_limit_keeps_command_failure_code() {
    let (mut launch, _) = Launch::new(spec(&["/bin/sh", "-c", "/bin/true &"], 0)).unwrap();
    launch.next(Event::Exists(true));
    let (mut child, first) = launch.child_session();
    let actions = setup_actions(&mut child, first, 1);
    assert_eq!(actions[5], write("/sys/fs/cgroup/pids/t1/pids.max", "0"));
    assert_eq!(
        actions[16],
        Action::RunCommand { program: s("/bin/sh"), args: vec![s("-c"), s("/bin/true &")] }
    );
    assert_eq!(child.next(Event::Exited(2)), Action::UnmountProc);
    assert_eq!(child.next(Event::Done), detach());
    assert_eq!(child.next(Event::Done), remove_old_root());
    let end = child.next(Event::Done);
    assert_eq!(end.exit_code(), Some(2));
    launch.next(Event::Done);
    launch.next(Event::Exited(2));
    assert_eq!(launch.next(Event::Failed).exit_code(), Some(2));
}

#[test]
fn exit_code_survives_failed_unmount() {
    let (mut launch, _) = Launch::new(spec(&["/bin/sh", "-c", "exit 7"], 5)).unwrap();
    launch.next(Event::Exists(true));
    let (mut child, first) = launch.child_session();
    setup_actions(&mut child, first, 1);
    assert_eq!(child.next(Event::Exited(7)), Action::UnmountProc);
    assert_eq!(child.next(Event::Failed), detach());
    assert_eq!(child.next(Event::Done), remove_old_root());
    let end = child.next(Event::Failed);
    assert_eq!(end, Action::Finish { code: 7, clean: false });
    assert_eq!(end.exit_code(), Some(7));
    assert!(child.proc_mounted);
    assert_eq!(child.next(Event::Done), Action::Finish { code: 7, clean: false });
}

#[test]
fn stale_group_is_removed_and_recreated() {
    let (launch, _) = Launch::new(spec(&["/bin/true"], 5)).unwrap();
    let (mut child, _) = launch.child_session();
    child.next(Event::Done);
    child.next(Event::Done);
    assert_eq!(
        child.next(Event::Done),
        Action::ProbeDir { path: s("/sys/fs/cgroup/pids/t1") }
    );
    assert_eq!(
        child.next(Event::Exists(true)),
        Action::RelaxPermissions { path: s("/sys/fs/cgroup/pids/t1"), mode: RELAXED_MODE }
    );
    assert_eq!(
        child.next(Event::Failed),
        Action::RemoveDirAll { path: s("/sys/fs/cgroup/pids/t1") }
    );
    assert_eq!(
        child.next(Event::Failed),
        Action::MakeDir { path: s("/sys/fs/cgroup/pids/t1"), mode: DIR_MODE }
    );
    // the directory still exists: creating it fails, the recheck finds it
    assert_eq!(
        child.next(Event::Failed),
        Action::ProbeDir { path: s("/sys/fs/cgroup/pids/t1") }
    );
    assert_eq!(child.next(Event::Exists(true)), write("/sys/fs/cgroup/pids/t1/pids.max", "5"));
}

#[test]
fn missing_group_dir_is_fatal() {
    let (launch, _) = Launch::new(spec(&["/bin/true"], 5)).unwrap();
    let (mut child, _) = launch.child_session();
    child.next(Event::Done);
    child.next(Event::Done);
    child.next(Event::Done);
    child.next(Event::Exists(false));
    child.next(Event::Failed);
    let end = child.next(Event::Exists(false));
    assert_eq!(end, Action::Abort { error: Failure::CgroupDir });
    assert_eq!(end.exit_code(), Some(SETUP_FAILURE_CODE));
}

#[test]
fn unwritable_group_fails_before_command() {
    let (launch, _) = Launch::new(spec(&["/bin/true"], 5)).unwrap();
    let (mut child, _) = launch.child_session();
    child.next(Event::Done);
    child.next(Event::Done);
    child.next(Event::Done);
    child.next(Event::Exists(false));
    child.next(Event::Done);
    let end = child.next(Event::Failed);
    assert_eq!(end, Action::Abort { error: Failure::CgroupWrite });
    assert_eq!(child.phase, Phase::Failed { error: Failure::CgroupWrite });
    for _ in 0..20 {
        assert_eq!(child.next(Event::Done), Action::Abort { error: Failure::CgroupWrite });
    }
}

#[test]
fn missing_root_stops_before_clone() {
    let (mut launch, _) = Launch::new(spec(&["/bin/true"], 5)).unwrap();
    let end = launch.next(Event::Exists(false));
    assert_eq!(end, Action::Abort { error: Failure::RootMissing });
    assert_eq!(launch.next(Event::Done), Action::Abort { error: Failure::RootMissing });
    assert_eq!(end.exit_code(), Some(CONFIG_FAILURE_CODE));
}

#[test]
fn clone_and_wait_failures_end_the_launch() {
    let (mut launch, _) = Launch::new(spec(&["/bin/true"], 5)).unwrap();
    launch.next(Event::Exists(true));
    assert_eq!(launch.next(Event::Failed), Action::Abort { error: Failure::CloneFailed });
    let (mut launch, _) = Launch::new(spec(&["/bin/true"], 5)).unwrap();
    launch.next(Event::Exists(true));
    launch.next(Event::Done);
    assert_eq!(
        launch.next(Event::Failed),
        Action::RemoveDirAll { path: s("/sys/fs/cgroup/pids/t1") }
    );
    let end = launch.next(Event::Done);
    assert_eq!(end, Action::Abort { error: Failure::WaitFailed });
    assert_eq!(end.exit_code(), Some(SETUP_FAILURE_CODE));
}

#[test]
fn each_setup_step_failure_is_reported() {
    let expected = [
        Failure::MountPrivate,
        Failure::Hostname,
        Failure::BindMount,
        Failure::CgroupDir,
    ];
    for (n, f) in expected.iter().enumerate() {
        let (launch, _) = Launch::new(spec(&["/bin/true"], 5)).unwrap();
        let (mut child, _) = launch.child_session();
        for _ in 0..n {
            child.next(Event::Done);
        }
        assert_eq!(child.next(Event::Failed), Action::Abort { error: *f });
    }
}

#[test]
fn failed_pivot_falls_back_to_chroot() {
    let (launch, _) = Launch::new(spec(&["/bin/true"], 5)).unwrap();
    let (mut child, _) = launch.child_session();
    for e in [
        Event::Done,
        Event::Done,
        Event::Done,
        Event::Exists(false),
        Event::Done,
        Event::Done,
        Event::Done,
        Event::Pid(42),
        Event::Done,
        Event::Done,
        Event::Cwd(s("/tmp/testroot/")),
    ] {
        child.next(e);
    }
    assert_eq!(child.old_root, s("/tmp/testroot/oldroot"));
    assert_eq!(
        child.next(Event::Exists(true)),
        Action::RelaxPermissions { path: s("/tmp/testroot/oldroot"), mode: RELAXED_MODE }
    );
    assert_eq!(
        child.next(Event::Done),
        Action::RemoveDirAll { path: s("/tmp/testroot/oldroot") }
    );
    assert_eq!(
        child.next(Event::Done),
        Action::MakeDir { path: s("/tmp/testroot/oldroot"), mode: DIR_MODE }
    );
    assert_eq!(
        child.next(Event::Failed),
        Action::PivotRoot { new_root: s("."), put_old: s("oldroot") }
    );
    assert_eq!(child.next(Event::Failed), Action::Chroot { path: s(".") });
    assert_eq!(child.next(Event::Done), Action::ChangeDir { path: s("/") });
    assert_eq!(child.next(Event::Done), Action::MountProc);
    assert!(!child.proc_mounted);
    assert!(!child.old_root_parked);
    child.next(Event::Done);
    // nothing is parked after a chroot: teardown only unmounts /proc
    assert_eq!(child.next(Event::Exited(3)), Action::UnmountProc);
    assert_eq!(child.next(Event::Done), Action::Finish { code: 3, clean: true });
    let (mut launch2, _) = Launch::new(spec(&["/bin/true"], 5)).unwrap();
    launch2.next(Event::Exists(true));
    let (mut other, first) = launch2.child_session();
    let actions = setup_actions(&mut other, first, 42);
    assert_eq!(actions[8], write("/sys/fs/cgroup/pids/t1/cgroup.procs", "42"));
}

#[test]
fn spawn_failure_unmounts_then_aborts() {
    let (launch, _) = Launch::new(spec(&["/no/such/program"], 5)).unwrap();
    let (mut child, first) = launch.child_session();
    setup_actions(&mut child, first, 1);
    assert_eq!(child.next(Event::Failed), Action::UnmountProc);
    assert_eq!(child.next(Event::Done), detach());
    assert_eq!(child.next(Event::Done), remove_old_root());
    let end = child.next(Event::Done);
    assert_eq!(end, Action::Abort { error: Failure::Spawn });
    assert_eq!(end.exit_code(), Some(SPAWN_FAILURE_CODE));
    assert!(!child.proc_mounted);
}

#[test]
fn single_word_command_has_no_arguments() {
    let (launch, _) = Launch::new(spec(&["/bin/sh"], 5)).unwrap();
    let (mut child, first) = launch.child_session();
    let actions = setup_actions(&mut child, first, 1);
    assert_eq!(actions[16], Action::RunCommand { program: s("/bin/sh"), args: vec![] });
}

#[test]
fn non_ending_actions_have_no_exit_code() {
    assert_eq!(Action::MountProc.exit_code(), None);
    assert_eq!(Action::QueryPid.exit_code(), None);
}

#[test]
fn exit_seven_is_the_tool_exit_code() {
    let (mut launch, _) = Launch::new(spec(&["/bin/sh", "-c", "exit 7"], 5)).unwrap();
    launch.next(Event::Exists(true));
    let (mut child, first) = launch.child_session();
    setup_actions(&mut child, first, 1);
    assert_eq!(child.next(Event::Exited(7)), Action::UnmountProc);
    assert_eq!(child.next(Event::Done), detach());
    assert_eq!(child.next(Event::Done), remove_old_root());
    let end = child.next(Event::Done);
    assert_eq!(end, Action::Finish { code: 7, clean: true });
    let child_code = end.exit_code().unwrap();
    launch.next(Event::Done);
    launch.next(Event::Exited(child_code));
    assert_eq!(launch.next(Event::Done).exit_code(), Some(7));
}

#[test]
fn failed_proc_mount_releases_old_root() {
    let (launch, _) = Launch::new(spec(&["/bin/true"], 5)).unwrap();
    let (mut child, _) = launch.child_session();
    for e in [
        Event::Done,
        Event::Done,
        Event::Done,
        Event::Exists(false),
        Event::Done,
        Event::Done,
        Event::Done,
        Event::Pid(1),
        Event::Done,
        Event::Done,
        Event::Cwd(s("/tmp/testroot")),
        Event::Exists(false),
        Event::Done,
        Event::Done,
        Event::Done,
    ] {
        child.next(e);
    }
    assert!(child.old_root_parked);
    assert_eq!(child.next(Event::Failed), detach());
    assert_eq!(child.next(Event::Done), remove_old_root());
    let end = child.next(Event::Failed);
    assert_eq!(end, Action::Abort { error: Failure::MountProc });
    assert_eq!(end.exit_code(), Some(SETUP_FAILURE_CODE));
}
