use vstd::prelude::*;

use crate::config::{strings_view, CONFIG_FAILURE_CODE};

verus! {

/// Mode of the directories created for a run: owner and group may do
/// anything, others may read and write.
pub const DIR_MODE: u32 = 0o776;

/// Mode of each control file once written: owner only.
pub const FILE_MODE: u32 = 0o700;

/// Mode given to leftovers of an earlier run so that nothing blocks their removal.
pub const RELAXED_MODE: u32 = 0o666;

/// Exit status of a run that failed before or around its command.
pub const SETUP_FAILURE_CODE: i32 = 125;

/// Exit status of a run whose command could not be started.
pub const SPAWN_FAILURE_CODE: i32 = 127;

/// A step of a run that failed, which ends the run.
#[derive(Clone, Copy, Debug, PartialEq, Eq, Structural)]
pub enum Failure {
    RootMissing,
    CloneFailed,
    WaitFailed,
    MountPrivate,
    Hostname,
    BindMount,
    CgroupDir,
    CgroupWrite,
    Pid,
    ChangeDir,
    CurrentDir,
    OldRoot,
    Chroot,
    MountProc,
    Spawn,
}

/// The exit status that reports `f`.
pub open spec fn failure_code(f: Failure) -> i32 {
    if f is Spawn {
        SPAWN_FAILURE_CODE
    } else if f is RootMissing {
        CONFIG_FAILURE_CODE
    } else {
        SETUP_FAILURE_CODE
    }
}

/// How a run is ending: the command exited with a status, or a step failed.
#[derive(Clone, Copy, Debug, PartialEq, Eq, Structural)]
pub enum Outcome {
    Exited { code: i32 },
    Failed { error: Failure },
}

/// One privileged or observing operation that the caller performs for a run,
/// or the run's end.
#[derive(Debug, PartialEq, Eq)]
pub enum Action {
    /// Report whether a directory exists at `path`.
    ProbeDir { path: String },
    /// Stop mount events from propagating to or from the host.
    MakeMountsPrivate,
    /// Set the hostname of the UTS namespace.
    SetHostname { name: String },
    /// Bind-mount `path` onto itself, recursively.
    BindMount { path: String },
    /// Give `path` and the files beneath it, at any depth, the permission
    /// bits `mode`, without following symbolic links or entering other
    /// filesystems. Best effort: the outcome is not looked at.
    RelaxPermissions { path: String, mode: u32 },
    /// Remove the directory `path` with its contents. Best effort.
    RemoveDirAll { path: String },
    /// Create the directory `path` with the permission bits `mode`.
    MakeDir { path: String, mode: u32 },
    /// Create the file `path`, write `content` whole, then set its bits to `mode`.
    WriteFile { path: String, content: String, mode: u32 },
    /// Report the process id of the calling process.
    QueryPid,
    /// Change the working directory.
    ChangeDir { path: String },
    /// Report the working directory.
    QueryCwd,
    /// Make `new_root` the root and move the old root to `put_old`.
    PivotRoot { new_root: String, put_old: String },
    /// Change the root directory to `path`.
    Chroot { path: String },
    /// Mount a fresh `proc` filesystem at `/proc`.
    MountProc,
    /// Unmount `/proc`.
    UnmountProc,
    /// Lazily unmount the parked old root at `path`, detaching it from the
    /// mount namespace.
    DetachOldRoot { path: String },
    /// Remove the empty directory `path`. Best effort.
    RemoveDir { path: String },
    /// Run `program` with `args`, standard streams inherited, and report how it exited.
    RunCommand { program: String, args: Vec<String> },
    /// Create the isolated child process in new UTS, PID and mount namespaces.
    CloneChild,
    /// Wait for the isolated child and report its exit status.
    WaitChild,
    /// The run is over: exit with `code`; `clean` tells whether teardown succeeded.
    Finish { code: i32, clean: bool },
    /// The run failed at a step: exit with the status of `error`.
    Abort { error: Failure },
}

/// The mathematical content of an [`Action`].
pub enum ActionView {
    ProbeDir { path: Seq<char> },
    MakeMountsPrivate,
    SetHostname { name: Seq<char> },
    BindMount { path: Seq<char> },
    RelaxPermissions { path: Seq<char>, mode: u32 },
    RemoveDirAll { path: Seq<char> },
    MakeDir { path: Seq<char>, mode: u32 },
    WriteFile { path: Seq<char>, content: Seq<char>, mode: u32 },
    QueryPid,
    ChangeDir { path: Seq<char> },
    QueryCwd,
    PivotRoot { new_root: Seq<char>, put_old: Seq<char> },
    Chroot { path: Seq<char> },
    MountProc,
    UnmountProc,
    DetachOldRoot { path: Seq<char> },
    RemoveDir { path: Seq<char> },
    RunCommand { program: Seq<char>, args: Seq<Seq<char>> },
    CloneChild,
    WaitChild,
    Finish { code: i32, clean: bool },
    Abort { error: Failure },
}

impl View for Action {
    type V = ActionView;

    open spec fn view(&self) -> ActionView {
        match self {
            Action::ProbeDir { path } => ActionView::ProbeDir { path: path@ },
            Action::MakeMountsPrivate => ActionView::MakeMountsPrivate,
            Action::SetHostname { name } => ActionView::SetHostname { name: name@ },
            Action::BindMount { path } => ActionView::BindMount { path: path@ },
            Action::RelaxPermissions { path, mode } => ActionView::RelaxPermissions {
                path: path@,
                mode: *mode,
            },
            Action::RemoveDirAll { path } => ActionView::RemoveDirAll { path: path@ },
            Action::MakeDir { path, mode } => ActionView::MakeDir { path: path@, mode: *mode },
            Action::WriteFile { path, content, mode } => ActionView::WriteFile {
                path: path@,
                content: content@,
                mode: *mode,
            },
            Action::QueryPid => ActionView::QueryPid,
            Action::ChangeDir { path } => ActionView::ChangeDir { path: path@ },
            Action::QueryCwd => ActionView::QueryCwd,
            Action::PivotRoot { new_root, put_old } => ActionView::PivotRoot {
                new_root: new_root@,
                put_old: put_old@,
            },
            Action::Chroot { path } => ActionView::Chroot { path: path@ },
            Action::MountProc => ActionView::MountProc,
            Action::UnmountProc => ActionView::UnmountProc,
            Action::DetachOldRoot { path } => ActionView::DetachOldRoot { path: path@ },
            Action::RemoveDir { path } => ActionView::RemoveDir { path: path@ },
            Action::RunCommand { program, args } => ActionView::RunCommand {
                program: program@,
                args: strings_view(args@),
            },
            Action::CloneChild => ActionView::CloneChild,
            Action::WaitChild => ActionView::WaitChild,
            Action::Finish { code, clean } => ActionView::Finish { code: *code, clean: *clean },
            Action::Abort { error } => ActionView::Abort { error: *error },
        }
    }
}

/// The exit status that an action ending a run stands for.
pub open spec fn ending_code(a: ActionView) -> Option<i32> {
    match a {
        ActionView::Finish { code, .. } => Some(code),
        ActionView::Abort { error } => Some(failure_code(error)),
        _ => None,
    }
}

impl Action {
    /// The exit status to leave with, where this action ends the run.
    pub fn exit_code(&self) -> (r: Option<i32>)
        ensures
            r == ending_code(self@),
    {
        match self {
            Action::Finish { code, .. } => Some(*code),
            Action::Abort { error } => {
                if matches!(error, Failure::Spawn) {
                    Some(SPAWN_FAILURE_CODE)
                } else if matches!(error, Failure::RootMissing) {
                    Some(CONFIG_FAILURE_CODE)
                } else {
                    Some(SETUP_FAILURE_CODE)
                }
            },
            _ => None,
        }
    }
}

/// What the caller observed when it performed the last action.
#[derive(Debug, PartialEq, Eq)]
pub enum Event {
    /// It succeeded.
    Done,
    /// It failed.
    Failed,
    /// The probed directory exists, or not.
    Exists(bool),
    /// The process id asked for.
    Pid(u32),
    /// The working directory asked for.
    Cwd(String),
    /// The command or child ran and exited with this status.
    Exited(i32),
}

/// The mathematical content of an [`Event`].
pub enum EventView {
    Done,
    Failed,
    Exists(bool),
    Pid(u32),
    Cwd(Seq<char>),
    Exited(i32),
}

impl View for Event {
    type V = EventView;

    open spec fn view(&self) -> EventView {
        match self {
            Event::Done => EventView::Done,
            Event::Failed => EventView::Failed,
            Event::Exists(b) => EventView::Exists(*b),
            Event::Pid(p) => EventView::Pid(*p),
            Event::Cwd(d) => EventView::Cwd(d@),
            Event::Exited(c) => EventView::Exited(*c),
        }
    }
}

} // verus!
