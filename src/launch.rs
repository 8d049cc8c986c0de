use vstd::prelude::*;

use crate::config::{
    config_error, is_plain_name, plain_name, strings_view, valid, ConfigError, Container,
    ContainerView,
};
use crate::paths::{cgroup_dir, cgroup_path};
use crate::protocol::{Action, ActionView, Event, EventView, Failure, Outcome};
use crate::setup::{initial, session_inv, Session};

verus! {

/// Bytes of stack handed to the isolated child; too small a stack corrupts it.
pub const STACK_SIZE: usize = 1024 * 1024;

/// Where the host process stands in a launch.
#[derive(Clone, Copy, Debug, PartialEq, Eq, Structural)]
pub enum LaunchPhase {
    AwaitRootProbe,
    AwaitClone,
    AwaitChild,
    AwaitCleanup { end: Outcome },
    Finished { code: i32, clean: bool },
    Failed { error: Failure },
}

/// The host side of one run: check the root, clone the isolated child, wait
/// for it, then remove its control group, whether or not the wait succeeded.
pub struct Launch {
    pub container: Container,
    pub phase: LaunchPhase,
}

/// The mathematical content of a [`Launch`].
pub struct LaunchView {
    pub container: ContainerView,
    pub phase: LaunchPhase,
}

impl View for Launch {
    type V = LaunchView;

    open spec fn view(&self) -> LaunchView {
        LaunchView { container: self.container@, phase: self.phase }
    }
}

/// The host protocol: from a state and the outcome of the last action, the
/// next state and the next action. Removing the group is best effort.
pub open spec fn launch_step(l: LaunchView, e: EventView) -> (LaunchView, ActionView) {
    let fail = |f: Failure|
        (LaunchView { phase: LaunchPhase::Failed { error: f }, ..l }, ActionView::Abort { error: f });
    match l.phase {
        LaunchPhase::AwaitRootProbe => if e == EventView::Exists(true) {
            (LaunchView { phase: LaunchPhase::AwaitClone, ..l }, ActionView::CloneChild)
        } else {
            fail(Failure::RootMissing)
        },
        LaunchPhase::AwaitClone => if e is Done {
            (LaunchView { phase: LaunchPhase::AwaitChild, ..l }, ActionView::WaitChild)
        } else {
            fail(Failure::CloneFailed)
        },
        LaunchPhase::AwaitChild => {
            let end = match e {
                EventView::Exited(code) => Outcome::Exited { code },
                _ => Outcome::Failed { error: Failure::WaitFailed },
            };
            (
                LaunchView { phase: LaunchPhase::AwaitCleanup { end }, ..l },
                ActionView::RemoveDirAll { path: cgroup_dir(l.container.cgroup_name) },
            )
        },
        LaunchPhase::AwaitCleanup { end } => match end {
            Outcome::Exited { code } => (
                LaunchView { phase: LaunchPhase::Finished { code, clean: e is Done }, ..l },
                ActionView::Finish { code, clean: e is Done },
            ),
            Outcome::Failed { error } => fail(error),
        },
        LaunchPhase::Finished { code, clean } => (l, ActionView::Finish { code, clean }),
        LaunchPhase::Failed { error } => (l, ActionView::Abort { error }),
    }
}

/// The actions that a launch in state `l` asks for, one for each outcome in `evs`.
pub open spec fn launch_run(l: LaunchView, evs: Seq<EventView>) -> Seq<ActionView>
    decreases evs.len(),
{
    if evs.len() == 0 {
        Seq::empty()
    } else {
        seq![launch_step(l, evs[0]).1] + launch_run(launch_step(l, evs[0]).0, evs.drop_first())
    }
}

/// Removal of the control group of `container`; `None` where its name is not
/// one plain path component, so that nothing outside the pids hierarchy is
/// ever removed.
pub fn rm_cgroup_dir(container: &Container) -> (r: Option<Action>)
    ensures
        r is Some <==> plain_name(container.cgroup_name@),
        r is Some ==> r->Some_0@ == (ActionView::RemoveDirAll {
            path: cgroup_dir(container.cgroup_name@),
        }),
{
    if is_plain_name(container.cgroup_name.as_str()) {
        Some(Action::RemoveDirAll { path: cgroup_path(container.cgroup_name.as_str()) })
    } else {
        None
    }
}

fn copy_strings(v: &Vec<String>) -> (r: Vec<String>)
    ensures
        strings_view(r@) == strings_view(v@),
{
    let mut r: Vec<String> = Vec::new();
    let mut i: usize = 0;
    while i < v.len()
        invariant
            i <= v@.len(),
            r@.len() == i,
            forall|j: int| 0 <= j < r@.len() ==> #[trigger] r@[j]@ == v@[j]@,
        decreases v@.len() - i,
    {
        r.push(v[i].clone());
        i = i + 1;
    }
    proof {
        assert(strings_view(r@) =~= strings_view(v@));
    }
    r
}

impl Launch {
    /// Starts a launch of `container`: refused with the configuration error
    /// exactly when it is not valid, else the first action probes the root.
    pub fn new(container: Container) -> (r: Result<(Launch, Action), ConfigError>)
        ensures
            r is Ok <==> valid(container@),
            r is Err ==> Some(r->Err_0) == config_error(container@),
            r is Ok ==> (r->Ok_0.0@ == LaunchView {
                container: container@,
                phase: LaunchPhase::AwaitRootProbe,
            } && r->Ok_0.1@ == ActionView::ProbeDir { path: container@.chroot_path }),
    {
        match container.validate() {
            Err(e) => Err(e),
            Ok(()) => {
                let probe = Action::ProbeDir { path: container.chroot_path.clone() };
                Ok((Launch { container, phase: LaunchPhase::AwaitRootProbe }, probe))
            },
        }
    }

    /// Takes the outcome of the last action and gives the next one.
    pub fn next(&mut self, e: Event) -> (r: Action)
        requires
            valid(old(self).container@),
        ensures
            valid(final(self).container@),
            (final(self)@, r@) == launch_step(old(self)@, e@),
    {
        match self.phase {
            LaunchPhase::AwaitRootProbe => if matches!(e, Event::Exists(true)) {
                self.phase = LaunchPhase::AwaitClone;
                Action::CloneChild
            } else {
                self.phase = LaunchPhase::Failed { error: Failure::RootMissing };
                Action::Abort { error: Failure::RootMissing }
            },
            LaunchPhase::AwaitClone => if matches!(e, Event::Done) {
                self.phase = LaunchPhase::AwaitChild;
                Action::WaitChild
            } else {
                self.phase = LaunchPhase::Failed { error: Failure::CloneFailed };
                Action::Abort { error: Failure::CloneFailed }
            },
            LaunchPhase::AwaitChild => {
                let end = match e {
                    Event::Exited(code) => Outcome::Exited { code },
                    _ => Outcome::Failed { error: Failure::WaitFailed },
                };
                self.phase = LaunchPhase::AwaitCleanup { end };
                Action::RemoveDirAll { path: cgroup_path(self.container.cgroup_name.as_str()) }
            },
            LaunchPhase::AwaitCleanup { end } => match end {
                Outcome::Exited { code } => {
                    let clean = matches!(e, Event::Done);
                    self.phase = LaunchPhase::Finished { code, clean };
                    Action::Finish { code, clean }
                },
                Outcome::Failed { error } => {
                    self.phase = LaunchPhase::Failed { error };
                    Action::Abort { error }
                },
            },
            LaunchPhase::Finished { code, clean } => Action::Finish { code, clean },
            LaunchPhase::Failed { error } => Action::Abort { error },
        }
    }

    /// The isolated child's own session, on a copy of the configuration.
    pub fn child_session(&self) -> (r: (Session, Action))
        requires
            valid(self.container@),
        ensures
            session_inv(&r.0),
            r.0@ == initial(self.container@),
            r.1@ == ActionView::MakeMountsPrivate,
    {
        let c = Container {
            args: copy_strings(&self.container.args),
            chroot_path: self.container.chroot_path.clone(),
            cgroup_name: self.container.cgroup_name.clone(),
            hostname: self.container.hostname.clone(),
            max_pids: self.container.max_pids,
        };
        Session::new(c)
    }
}

/// The exit status that a finished command reports: its own code, or
/// 128 plus the signal that ended it.
pub open spec fn status_code(code: Option<i32>, signal: Option<i32>) -> i32 {
    match code {
        Some(c) => c,
        None => match signal {
            Some(s) => if 0 <= s <= 127 {
                (128 + s) as i32
            } else {
                255
            },
            None => 255,
        },
    }
}

/// Folds how a command ended into one exit status.
pub fn command_status_code(code: Option<i32>, signal: Option<i32>) -> (r: i32)
    ensures
        r == status_code(code, signal),
{
    match code {
        Some(c) => c,
        None => match signal {
            Some(s) => if 0 <= s && s <= 127 {
                128 + s
            } else {
                255
            },
            None => 255,
        },
    }
}

} // verus!
