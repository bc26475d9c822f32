//! An in-memory process creator that runs the launch machine end to end: it
//! starts one process suspended, maps its main image after a set number of
//! queries, and records what became of the process and its handles.

use vstd::prelude::*;
use crate::remote::LaunchError;
use crate::launcher::{Launch, LaunchAction, LaunchEvent, LaunchPolicy, LaunchStage, LaunchView,
    TargetProcess, launch_action_of, launch_measure, lemma_launch_progress};

verus! {

/// The handles and id that the loopback launcher gives its one process.
pub const LOOPBACK_PROCESS: u64 = 0x100;
pub const LOOPBACK_THREAD: u64 = 0x104;
pub const LOOPBACK_PID: u32 = 4242;

pub open spec fn loopback_target() -> TargetProcess {
    TargetProcess { process: LOOPBACK_PROCESS, thread: LOOPBACK_THREAD, pid: LOOPBACK_PID }
}

pub ghost struct LauncherView {
    pub refuse_create: bool,
    pub refuse_resume: bool,
    pub mapped_after: u32,
    pub created: bool,
    pub suspended: bool,
    pub terminated: bool,
    pub queries: u32,
    pub handles: Seq<u64>,
}

pub struct LoopbackLauncher {
    refuse_create: bool,
    refuse_resume: bool,
    mapped_after: u32,
    created: bool,
    suspended: bool,
    terminated: bool,
    queries: u32,
    handles: Vec<u64>,
}

/// How many queries a launch under `p` makes at most.
pub open spec fn query_budget(p: LaunchPolicy) -> nat {
    if p.max_polls == 0 { 1 } else { p.max_polls as nat }
}

/// The result that launching under `p` gives on a launcher configured as `v`.
pub open spec fn expected_launch(v: LauncherView, p: LaunchPolicy) -> Result<TargetProcess, LaunchError> {
    if v.refuse_create || v.refuse_resume {
        Err(LaunchError::SpawnFailed)
    } else if v.mapped_after as nat > query_budget(p) {
        Err(LaunchError::InitializationTimeout)
    } else {
        Ok(loopback_target())
    }
}

pub open spec fn open_handles(m: LaunchView) -> Seq<u64> {
    if m.process_open && m.thread_open {
        seq![LOOPBACK_PROCESS, LOOPBACK_THREAD]
    } else if m.process_open {
        seq![LOOPBACK_PROCESS]
    } else {
        Seq::empty()
    }
}

spec fn launch_consistent(m: LaunchView, s: LauncherView, init: LauncherView, p: LaunchPolicy) -> bool {
    let config_kept = s.refuse_create == init.refuse_create && s.refuse_resume == init.refuse_resume
        && s.mapped_after == init.mapped_after;
    let running = s.created && !s.terminated && s.handles == seq![LOOPBACK_PROCESS, LOOPBACK_THREAD]
        && m.target == loopback_target() && !init.refuse_create;
    config_kept && s.queries as nat <= query_budget(p) && match m.stage {
        LaunchStage::Creating => s == init,
        LaunchStage::Resuming => running && s.suspended && s.queries == 0,
        LaunchStage::Polling | LaunchStage::Sleeping =>
            running && !s.suspended && !init.refuse_resume && s.queries == m.polls
            && (m.polls == 0 || (m.polls as nat) < init.mapped_after as nat)
            && (m.polls as nat) < query_budget(p),
        LaunchStage::Settling | LaunchStage::Ready =>
            running && !s.suspended && !init.refuse_resume
            && init.mapped_after as nat <= query_budget(p),
        LaunchStage::Cleanup =>
            m.error == expected_launch(init, p)->Err_0 && expected_launch(init, p) is Err
            && s.handles == open_handles(m)
            && (m.thread_open ==> m.process_open)
            && (m.process_open ==> s.created && m.target == loopback_target())
            && (m.terminate_pending ==> s.created && !s.terminated)
            && (s.created ==> s.terminated || m.terminate_pending),
    }
}

impl LoopbackLauncher {
    pub closed spec fn view(&self) -> LauncherView {
        LauncherView {
            refuse_create: self.refuse_create,
            refuse_resume: self.refuse_resume,
            mapped_after: self.mapped_after,
            created: self.created,
            suspended: self.suspended,
            terminated: self.terminated,
            queries: self.queries,
            handles: self.handles@,
        }
    }

    /// A launcher that refuses to create or to resume as told, and whose
    /// process's main image can be queried from query `mapped_after` on.
    pub fn new(refuse_create: bool, refuse_resume: bool, mapped_after: u32) -> (r: LoopbackLauncher)
        ensures
            r.view() == (LauncherView {
                refuse_create,
                refuse_resume,
                mapped_after,
                created: false,
                suspended: false,
                terminated: false,
                queries: 0,
                handles: Seq::empty(),
            }),
    {
        LoopbackLauncher {
            refuse_create,
            refuse_resume,
            mapped_after,
            created: false,
            suspended: false,
            terminated: false,
            queries: 0,
            handles: Vec::new(),
        }
    }

    pub fn is_created(&self) -> (r: bool)
        ensures
            r == self.view().created,
    {
        self.created
    }

    pub fn is_suspended(&self) -> (r: bool)
        ensures
            r == self.view().suspended,
    {
        self.suspended
    }

    pub fn is_terminated(&self) -> (r: bool)
        ensures
            r == self.view().terminated,
    {
        self.terminated
    }

    pub fn queries(&self) -> (r: u32)
        ensures
            r == self.view().queries,
    {
        self.queries
    }

    /// The handles that are open, in the order they were opened.
    pub fn open_handles(&self) -> (r: &[u64])
        ensures
            r@ == self.view().handles,
    {
        self.handles.as_slice()
    }

    fn create(&mut self) -> (r: Option<TargetProcess>)
        requires
            !old(self).created,
            old(self).view().handles.len() == 0,
        ensures
            old(self).refuse_create ==> r is None && final(self).view() == old(self).view(),
            !old(self).refuse_create ==> r == Some(loopback_target()) && final(self).view() == (LauncherView {
                created: true,
                suspended: true,
                handles: seq![LOOPBACK_PROCESS, LOOPBACK_THREAD],
                ..old(self).view()
            }),
    {
        if self.refuse_create {
            return None;
        }
        self.created = true;
        self.suspended = true;
        self.handles.push(LOOPBACK_PROCESS);
        self.handles.push(LOOPBACK_THREAD);
        assert(self.handles@ =~= seq![LOOPBACK_PROCESS, LOOPBACK_THREAD]);
        Some(TargetProcess { process: LOOPBACK_PROCESS, thread: LOOPBACK_THREAD, pid: LOOPBACK_PID })
    }

    fn resume(&mut self, thread: u64) -> (r: bool)
        ensures
            r == (!old(self).refuse_resume && old(self).created && thread == LOOPBACK_THREAD),
            r ==> final(self).view() == (LauncherView { suspended: false, ..old(self).view() }),
            !r ==> final(self).view() == old(self).view(),
    {
        if self.refuse_resume || !self.created || thread != LOOPBACK_THREAD {
            return false;
        }
        self.suspended = false;
        true
    }

    fn query(&mut self, process: u64) -> (r: bool)
        requires
            old(self).queries < u32::MAX,
        ensures
            final(self).view() == (LauncherView { queries: (old(self).queries + 1) as u32, ..old(self).view() }),
            r == (old(self).created && !old(self).suspended && !old(self).terminated
                && process == LOOPBACK_PROCESS && old(self).queries + 1 >= old(self).mapped_after),
    {
        self.queries = self.queries + 1;
        self.created && !self.suspended && !self.terminated && process == LOOPBACK_PROCESS
            && self.queries >= self.mapped_after
    }

    fn terminate(&mut self, process: u64)
        ensures
            (old(self).created && process == LOOPBACK_PROCESS)
                ==> final(self).view() == (LauncherView { terminated: true, ..old(self).view() }),
            !(old(self).created && process == LOOPBACK_PROCESS) ==> final(self).view() == old(self).view(),
    {
        if self.created && process == LOOPBACK_PROCESS {
            self.terminated = true;
        }
    }

    fn close(&mut self, handle: u64)
        ensures
            old(self).view().handles.len() > 0 && old(self).view().handles.last() == handle
                ==> final(self).view() == (LauncherView {
                    handles: old(self).view().handles.drop_last(),
                    ..old(self).view()
                }),
            !(old(self).view().handles.len() > 0 && old(self).view().handles.last() == handle)
                ==> final(self).view() == old(self).view(),
    {
        let n = self.handles.len();
        if n > 0 && self.handles[n - 1] == handle {
            let _h = self.handles.pop();
        }
    }

    /// Runs the launch machine under `policy` against this launcher. A
    /// launch that fails leaves no handle open and no created process alive.
    pub fn launch(&mut self, policy: LaunchPolicy) -> (r: Result<TargetProcess, LaunchError>)
        requires
            !old(self).view().created,
            !old(self).view().terminated,
            old(self).view().handles.len() == 0,
            old(self).view().queries == 0,
        ensures
            r == expected_launch(old(self).view(), policy),
            r is Ok ==> final(self).view().created && !final(self).view().suspended
                && !final(self).view().terminated
                && final(self).view().handles == seq![LOOPBACK_PROCESS, LOOPBACK_THREAD],
            r is Err ==> final(self).view().handles.len() == 0
                && (final(self).view().created ==> final(self).view().terminated),
            final(self).view().queries as nat <= query_budget(policy),
    {
        let ghost init = self.view();
        let mut m = Launch::new(policy);
        let mut action = m.next_action();
        loop
            invariant
                m.wf(),
                m.policy() == policy,
                init == old(self).view(),
                !init.created && !init.terminated && init.handles.len() == 0 && init.queries == 0,
                action == launch_action_of(m.view(), policy),
                launch_consistent(m.view(), self.view(), init, policy),
            decreases launch_measure(m.view(), policy),
        {
            let ghost mv = m.view();
            let ghost sv = self.view();
            match action {
                LaunchAction::Ready { target } => {
                    return Ok(target);
                },
                LaunchAction::Failed { error } => {
                    return Err(error);
                },
                LaunchAction::CreateSuspended => {
                    assert(sv == init);
                    assert(init.handles =~= Seq::<u64>::empty());
                    let event = LaunchEvent::Created(self.create());
                    proof { lemma_launch_progress(mv, policy, event); }
                    action = m.advance(event);
                },
                LaunchAction::ResumeThread { thread } => {
                    let event = LaunchEvent::Resumed(self.resume(thread));
                    proof { lemma_launch_progress(mv, policy, event); }
                    action = m.advance(event);
                },
                LaunchAction::QueryMainModule { process } => {
                    let event = LaunchEvent::ModuleQueried(self.query(process));
                    proof { lemma_launch_progress(mv, policy, event); }
                    action = m.advance(event);
                },
                LaunchAction::Sleep { ms: _ } => {
                    let event = LaunchEvent::Slept;
                    proof { lemma_launch_progress(mv, policy, event); }
                    action = m.advance(event);
                },
                LaunchAction::Settle { ms: _ } => {
                    let event = LaunchEvent::Settled;
                    proof { lemma_launch_progress(mv, policy, event); }
                    action = m.advance(event);
                },
                LaunchAction::Terminate { process } => {
                    self.terminate(process);
                    let event = LaunchEvent::Terminated;
                    proof { lemma_launch_progress(mv, policy, event); }
                    action = m.advance(event);
                },
                LaunchAction::CloseHandle { handle } => {
                    proof {
                        assert(seq![LOOPBACK_PROCESS, LOOPBACK_THREAD].drop_last() =~= seq![LOOPBACK_PROCESS]);
                        assert(seq![LOOPBACK_PROCESS].drop_last() =~= Seq::<u64>::empty());
                    }
                    self.close(handle);
                    let event = LaunchEvent::HandleClosed;
                    proof { lemma_launch_progress(mv, policy, event); }
                    action = m.advance(event);
                },
            }
        }
    }
}

} // verus!
