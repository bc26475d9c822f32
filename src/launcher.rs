//! Launching the target as a state machine: create it suspended, resume it,
//! poll until its main image is mapped, then let it settle. On failure the
//! process is terminated and both of its handles closed, so no suspended or
//! half-started process is left behind.

use vstd::prelude::*;
use crate::remote::LaunchError;

verus! {

/// The bounded waits of a launch.
#[derive(Clone, Copy, Debug, PartialEq, Eq, Structural)]
pub struct LaunchPolicy {
    /// How many times the main module is queried before giving up (at least once).
    pub max_polls: u32,
    pub poll_interval_ms: u32,
    /// How long to wait once the main image is mapped.
    pub settle_ms: u32,
}

impl LaunchPolicy {
    /// Fifty polls a tenth of a second apart, then five seconds to settle.
    pub fn standard() -> (r: LaunchPolicy)
        ensures
            r == (LaunchPolicy { max_polls: 50, poll_interval_ms: 100, settle_ms: 5000 }),
    {
        LaunchPolicy { max_polls: 50, poll_interval_ms: 100, settle_ms: 5000 }
    }
}

/// A created process: its handle, the handle of its initial thread, and its id.
#[derive(Clone, Copy, Debug, PartialEq, Eq, Structural)]
pub struct TargetProcess {
    pub process: u64,
    pub thread: u64,
    pub pid: u32,
}

#[derive(Clone, Copy, Debug, PartialEq, Eq, Structural)]
pub enum LaunchStage {
    Creating,
    Resuming,
    Polling,
    Sleeping,
    Settling,
    Ready,
    Cleanup,
}

/// What the driver of a launch is to do next.
#[derive(Clone, Copy, Debug, PartialEq, Eq, Structural)]
pub enum LaunchAction {
    /// Create the process with its initial thread suspended.
    CreateSuspended,
    ResumeThread { thread: u64 },
    /// Ask whether the main module of `process` can be queried yet.
    QueryMainModule { process: u64 },
    Sleep { ms: u32 },
    Settle { ms: u32 },
    Terminate { process: u64 },
    CloseHandle { handle: u64 },
    /// The process runs and is handed over.
    Ready { target: TargetProcess },
    /// The launch failed; nothing of it is left.
    Failed { error: LaunchError },
}

/// What came of the last launch action.
#[derive(Clone, Copy, Debug, PartialEq, Eq, Structural)]
pub enum LaunchEvent {
    Created(Option<TargetProcess>),
    Resumed(bool),
    ModuleQueried(bool),
    Slept,
    Settled,
    Terminated,
    HandleClosed,
}

pub ghost struct LaunchView {
    pub stage: LaunchStage,
    pub target: TargetProcess,
    pub polls: u32,
    pub process_open: bool,
    pub thread_open: bool,
    pub terminate_pending: bool,
    pub error: LaunchError,
}

pub struct Launch {
    policy: LaunchPolicy,
    stage: LaunchStage,
    target: TargetProcess,
    polls: u32,
    process_open: bool,
    thread_open: bool,
    terminate_pending: bool,
    error: LaunchError,
}

pub open spec fn launch_failed(v: LaunchView, e: LaunchError) -> LaunchView {
    LaunchView { stage: LaunchStage::Cleanup, error: e, terminate_pending: v.process_open, ..v }
}

/// How a launch moves on an event; an event that does not answer the pending
/// action leaves it unchanged.
pub open spec fn launch_transition(v: LaunchView, p: LaunchPolicy, e: LaunchEvent) -> LaunchView {
    match (v.stage, e) {
        (LaunchStage::Creating, LaunchEvent::Created(Some(t))) =>
            LaunchView { stage: LaunchStage::Resuming, target: t, process_open: true, thread_open: true, ..v },
        (LaunchStage::Creating, LaunchEvent::Created(None)) =>
            launch_failed(v, LaunchError::SpawnFailed),
        (LaunchStage::Resuming, LaunchEvent::Resumed(ok)) =>
            if ok {
                LaunchView { stage: LaunchStage::Polling, polls: 0, ..v }
            } else {
                launch_failed(v, LaunchError::SpawnFailed)
            },
        (LaunchStage::Polling, LaunchEvent::ModuleQueried(found)) =>
            if found {
                LaunchView { stage: LaunchStage::Settling, ..v }
            } else if v.polls + 1 >= p.max_polls {
                launch_failed(LaunchView { polls: (v.polls + 1) as u32, ..v }, LaunchError::InitializationTimeout)
            } else {
                LaunchView { stage: LaunchStage::Sleeping, polls: (v.polls + 1) as u32, ..v }
            },
        (LaunchStage::Sleeping, LaunchEvent::Slept) =>
            LaunchView { stage: LaunchStage::Polling, ..v },
        (LaunchStage::Settling, LaunchEvent::Settled) =>
            LaunchView { stage: LaunchStage::Ready, ..v },
        (LaunchStage::Cleanup, LaunchEvent::Terminated) =>
            if v.terminate_pending {
                LaunchView { terminate_pending: false, ..v }
            } else {
                v
            },
        (LaunchStage::Cleanup, LaunchEvent::HandleClosed) =>
            if v.terminate_pending {
                v
            } else if v.thread_open {
                LaunchView { thread_open: false, ..v }
            } else if v.process_open {
                LaunchView { process_open: false, ..v }
            } else {
                v
            },
        _ => v,
    }
}

/// The action that a launch state asks for.
pub open spec fn launch_action_of(v: LaunchView, p: LaunchPolicy) -> LaunchAction {
    match v.stage {
        LaunchStage::Creating => LaunchAction::CreateSuspended,
        LaunchStage::Resuming => LaunchAction::ResumeThread { thread: v.target.thread },
        LaunchStage::Polling => LaunchAction::QueryMainModule { process: v.target.process },
        LaunchStage::Sleeping => LaunchAction::Sleep { ms: p.poll_interval_ms },
        LaunchStage::Settling => LaunchAction::Settle { ms: p.settle_ms },
        LaunchStage::Ready => LaunchAction::Ready { target: v.target },
        LaunchStage::Cleanup =>
            if v.terminate_pending {
                LaunchAction::Terminate { process: v.target.process }
            } else if v.thread_open {
                LaunchAction::CloseHandle { handle: v.target.thread }
            } else if v.process_open {
                LaunchAction::CloseHandle { handle: v.target.process }
            } else {
                LaunchAction::Failed { error: v.error }
            },
    }
}

pub open spec fn launch_view_wf(v: LaunchView, p: LaunchPolicy) -> bool {
    match v.stage {
        LaunchStage::Creating => !v.process_open && !v.thread_open && !v.terminate_pending,
        LaunchStage::Resuming | LaunchStage::Settling | LaunchStage::Ready =>
            v.process_open && v.thread_open && !v.terminate_pending,
        LaunchStage::Polling => v.process_open && v.thread_open && !v.terminate_pending
            && (v.polls < p.max_polls || v.polls == 0),
        LaunchStage::Sleeping => v.process_open && v.thread_open && !v.terminate_pending
            && 0 < v.polls < p.max_polls,
        LaunchStage::Cleanup => v.terminate_pending ==> v.process_open,
    }
}

/// `e` is the kind of event that answers `a`.
pub open spec fn launch_answers(a: LaunchAction, e: LaunchEvent) -> bool {
    match (a, e) {
        (LaunchAction::CreateSuspended, LaunchEvent::Created(_)) => true,
        (LaunchAction::ResumeThread { .. }, LaunchEvent::Resumed(_)) => true,
        (LaunchAction::QueryMainModule { .. }, LaunchEvent::ModuleQueried(_)) => true,
        (LaunchAction::Sleep { .. }, LaunchEvent::Slept) => true,
        (LaunchAction::Settle { .. }, LaunchEvent::Settled) => true,
        (LaunchAction::Terminate { .. }, LaunchEvent::Terminated) => true,
        (LaunchAction::CloseHandle { .. }, LaunchEvent::HandleClosed) => true,
        _ => false,
    }
}

/// A bound on the actions a launch still takes.
pub open spec fn launch_measure(v: LaunchView, p: LaunchPolicy) -> nat {
    let base = 5 + 2 * (p.max_polls as nat);
    match v.stage {
        LaunchStage::Creating => base + 2,
        LaunchStage::Resuming => base + 1,
        LaunchStage::Polling => 5 + 2 * ((p.max_polls - v.polls) as nat),
        LaunchStage::Sleeping => 5 + 2 * ((p.max_polls - v.polls) as nat) + 1,
        LaunchStage::Settling => 4,
        LaunchStage::Ready => 0,
        LaunchStage::Cleanup =>
            (if v.terminate_pending { 1nat } else { 0nat })
            + (if v.thread_open { 1nat } else { 0nat })
            + (if v.process_open { 1nat } else { 0nat }),
    }
}

/// Answering the pending launch action moves the launch strictly closer to
/// its end, so it takes finitely many actions however the polls come out.
pub proof fn lemma_launch_progress(v: LaunchView, p: LaunchPolicy, e: LaunchEvent)
    requires
        launch_view_wf(v, p),
        launch_answers(launch_action_of(v, p), e),
    ensures
        launch_view_wf(launch_transition(v, p, e), p),
        launch_measure(launch_transition(v, p, e), p) < launch_measure(v, p),
{
}

/// A failed launch reports its error only once the process is terminated and
/// both its handles are closed.
pub proof fn lemma_failure_releases_process(v: LaunchView, p: LaunchPolicy)
    requires
        launch_view_wf(v, p),
        launch_action_of(v, p) is Failed,
    ensures
        !v.process_open,
        !v.thread_open,
        !v.terminate_pending,
{
}

/// The module is queried at most `max_polls` times: a launch that has polled
/// that often without finding the module fails with a timeout.
pub proof fn lemma_polls_bounded(v: LaunchView, p: LaunchPolicy)
    requires
        launch_view_wf(v, p),
        v.stage == LaunchStage::Polling,
        v.polls + 1 == p.max_polls,
    ensures
        launch_transition(v, p, LaunchEvent::ModuleQueried(false)).stage == LaunchStage::Cleanup,
        launch_transition(v, p, LaunchEvent::ModuleQueried(false)).error == LaunchError::InitializationTimeout,
        launch_transition(v, p, LaunchEvent::ModuleQueried(false)).terminate_pending,
{
}

impl Launch {
    pub closed spec fn view(&self) -> LaunchView {
        LaunchView {
            stage: self.stage,
            target: self.target,
            polls: self.polls,
            process_open: self.process_open,
            thread_open: self.thread_open,
            terminate_pending: self.terminate_pending,
            error: self.error,
        }
    }

    pub closed spec fn policy(&self) -> LaunchPolicy {
        self.policy
    }

    pub open spec fn wf(&self) -> bool {
        launch_view_wf(self.view(), self.policy())
    }

    /// A launch that has done nothing yet.
    pub fn new(policy: LaunchPolicy) -> (r: Launch)
        ensures
            r.wf(),
            r.policy() == policy,
            r.view().stage == LaunchStage::Creating,
            !r.view().process_open && !r.view().thread_open,
    {
        Launch {
            policy,
            stage: LaunchStage::Creating,
            target: TargetProcess { process: 0, thread: 0, pid: 0 },
            polls: 0,
            process_open: false,
            thread_open: false,
            terminate_pending: false,
            error: LaunchError::SpawnFailed,
        }
    }

    pub fn next_action(&self) -> (a: LaunchAction)
        requires
            self.wf(),
        ensures
            a == launch_action_of(self.view(), self.policy()),
    {
        match self.stage {
            LaunchStage::Creating => LaunchAction::CreateSuspended,
            LaunchStage::Resuming => LaunchAction::ResumeThread { thread: self.target.thread },
            LaunchStage::Polling => LaunchAction::QueryMainModule { process: self.target.process },
            LaunchStage::Sleeping => LaunchAction::Sleep { ms: self.policy.poll_interval_ms },
            LaunchStage::Settling => LaunchAction::Settle { ms: self.policy.settle_ms },
            LaunchStage::Ready => LaunchAction::Ready { target: self.target },
            LaunchStage::Cleanup => {
                if self.terminate_pending {
                    LaunchAction::Terminate { process: self.target.process }
                } else if self.thread_open {
                    LaunchAction::CloseHandle { handle: self.target.thread }
                } else if self.process_open {
                    LaunchAction::CloseHandle { handle: self.target.process }
                } else {
                    LaunchAction::Failed { error: self.error }
                }
            },
        }
    }

    fn fail(&mut self, e: LaunchError)
        ensures
            final(self).view() == launch_failed(old(self).view(), e),
            final(self).policy() == old(self).policy(),
    {
        self.stage = LaunchStage::Cleanup;
        self.error = e;
        self.terminate_pending = self.process_open;
    }

    /// Takes in what came of the last action and says what to do next.
    pub fn advance(&mut self, event: LaunchEvent) -> (a: LaunchAction)
        requires
            old(self).wf(),
        ensures
            final(self).wf(),
            final(self).policy() == old(self).policy(),
            final(self).view() == launch_transition(old(self).view(), old(self).policy(), event),
            a == launch_action_of(final(self).view(), final(self).policy()),
    {
        match (self.stage, event) {
            (LaunchStage::Creating, LaunchEvent::Created(Some(t))) => {
                self.target = t;
                self.process_open = true;
                self.thread_open = true;
                self.stage = LaunchStage::Resuming;
            },
            (LaunchStage::Creating, LaunchEvent::Created(None)) => {
                self.fail(LaunchError::SpawnFailed);
            },
            (LaunchStage::Resuming, LaunchEvent::Resumed(ok)) => {
                if ok {
                    self.polls = 0;
                    self.stage = LaunchStage::Polling;
                } else {
                    self.fail(LaunchError::SpawnFailed);
                }
            },
            (LaunchStage::Polling, LaunchEvent::ModuleQueried(found)) => {
                if found {
                    self.stage = LaunchStage::Settling;
                } else {
                    self.polls = self.polls + 1;
                    if self.polls >= self.policy.max_polls {
                        self.fail(LaunchError::InitializationTimeout);
                    } else {
                        self.stage = LaunchStage::Sleeping;
                    }
                }
            },
            (LaunchStage::Sleeping, LaunchEvent::Slept) => {
                self.stage = LaunchStage::Polling;
            },
            (LaunchStage::Settling, LaunchEvent::Settled) => {
                self.stage = LaunchStage::Ready;
            },
            (LaunchStage::Cleanup, LaunchEvent::Terminated) => {
                if self.terminate_pending {
                    self.terminate_pending = false;
                }
            },
            (LaunchStage::Cleanup, LaunchEvent::HandleClosed) => {
                if !self.terminate_pending {
                    if self.thread_open {
                        self.thread_open = false;
                    } else if self.process_open {
                        self.process_open = false;
                    }
                }
            },
            _ => {},
        }
        self.next_action()
    }
}

} // verus!
