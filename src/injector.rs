//! The injection procedure as a state machine: it says which operating-system
//! action to take next and learns the outcome of each as an event. Whatever
//! drives it (the Windows loop of the application, or the loopback process)
//! performs the actions; the machine decides the order, the rollback and the
//! result.

use vstd::prelude::*;
use vstd::string::StringSliceAdditionalSpecFns;
use crate::cstr::{has_no_nul, encode_c_string};
use crate::remote::{AllocError, WriteError, ResolveError, InjectionError, InjectionResult};

verus! {

/// How long the remote loader thread may run before the attempt is abandoned.
pub const LOADER_TIMEOUT_MS: u32 = 10000;

/// Why a module path was refused.
#[derive(Clone, Copy, Debug, PartialEq, Eq, Structural)]
pub enum PathError {
    NotAbsolute,
    InteriorNul,
}

pub open spec fn is_ascii_letter(b: u8) -> bool {
    (65u8 <= b && b <= 90u8) || (97u8 <= b && b <= 122u8)
}

pub open spec fn is_separator(b: u8) -> bool {
    b == 92u8 || b == 47u8
}

/// A Windows absolute path: a drive letter, a colon and a separator, or two
/// leading backslashes (a UNC path).
pub open spec fn is_absolute(p: Seq<u8>) -> bool {
    (p.len() >= 3 && is_ascii_letter(p[0]) && p[1] == 58u8 && is_separator(p[2]))
    || (p.len() >= 2 && p[0] == 92u8 && p[1] == 92u8)
}

/// The absolute path of the module to load, checked to be safe to hand to the
/// loader as a C string.
pub struct ModulePath {
    bytes: Vec<u8>,
}

impl ModulePath {
    pub closed spec fn path_bytes(&self) -> Seq<u8> {
        self.bytes@
    }

    pub closed spec fn wf(&self) -> bool {
        is_absolute(self.bytes@) && has_no_nul(self.bytes@)
    }

    /// Checks `path` and keeps it: refused where it is not absolute or holds a NUL.
    pub fn new(path: &str) -> (r: Result<ModulePath, PathError>)
        ensures
            !is_absolute(path.spec_bytes()) ==> r == Err::<ModulePath, PathError>(PathError::NotAbsolute),
            is_absolute(path.spec_bytes()) && !has_no_nul(path.spec_bytes())
                ==> r == Err::<ModulePath, PathError>(PathError::InteriorNul),
            is_absolute(path.spec_bytes()) && has_no_nul(path.spec_bytes()) ==> r is Ok,
            r matches Ok(m) ==> m.wf() && m.path_bytes() == path.spec_bytes(),
    {
        let b = path.as_bytes();
        let drive = b.len() >= 3 && ((65u8 <= b[0] && b[0] <= 90u8) || (97u8 <= b[0] && b[0] <= 122u8))
            && b[1] == 58u8 && (b[2] == 92u8 || b[2] == 47u8);
        let unc = b.len() >= 2 && b[0] == 92u8 && b[1] == 92u8;
        if !(drive || unc) {
            return Err(PathError::NotAbsolute);
        }
        match encode_c_string(b) {
            None => Err(PathError::InteriorNul),
            Some(_) => {
                let mut bytes: Vec<u8> = Vec::new();
                let mut i: usize = 0;
                while i < b.len()
                    invariant
                        i <= b.len(),
                        bytes@ =~= b@.subrange(0, i as int),
                    decreases b.len() - i,
                {
                    bytes.push(b[i]);
                    i = i + 1;
                }
                assert(bytes@ =~= b@);
                Ok(ModulePath { bytes })
            },
        }
    }

    /// The path as the loader reads it: its bytes and a closing NUL.
    pub fn to_c_bytes(&self) -> (r: Vec<u8>)
        requires
            self.wf(),
        ensures
            r@ == self.path_bytes().push(0u8),
    {
        match encode_c_string(self.bytes.as_slice()) {
            Some(v) => v,
            None => {
                assert(false);
                Vec::new()
            },
        }
    }
}

#[derive(Clone, Copy, Debug, PartialEq, Eq, Structural)]
pub enum Stage {
    Allocating,
    Writing,
    Resolving,
    Spawning,
    Waiting,
    QueryingExit,
    Cleanup,
}

/// What the driver is to do next.
#[derive(Clone, Copy, Debug, PartialEq, Eq)]
pub enum Action {
    /// Reserve and commit `size` bytes of read/write memory in the target.
    Allocate { size: usize },
    /// Copy the path buffer (see `Injection::buffer`) to `address` in the target.
    Write { address: u64 },
    /// Look up the loader entry point (`LoadLibraryA` of `kernel32.dll`) locally.
    ResolveLoader,
    /// Create a thread in the target that runs `start` with `argument`.
    SpawnThread { start: u64, argument: u64 },
    /// Wait for the remote thread, at most `timeout_ms` milliseconds.
    Wait { thread: u64, timeout_ms: u32 },
    QueryExitCode { thread: u64 },
    Free { address: u64 },
    CloseThread { thread: u64 },
    Terminate,
    /// Nothing is left to do: report `result`.
    Done { result: InjectionResult },
}

/// What came of the last action.
#[derive(Clone, Copy, Debug, PartialEq, Eq)]
pub enum Event {
    Allocated(Result<u64, AllocError>),
    Written(Result<usize, WriteError>),
    Resolved(Result<u64, ResolveError>),
    /// The remote thread's handle, or `None` where it could not be created.
    Spawned(Option<u64>),
    Waited { completed: bool },
    ExitCode(Option<u32>),
    Freed,
    ThreadClosed,
    Terminated,
}

/// The state of an injection, without its path buffer.
pub ghost struct InjectionView {
    pub stage: Stage,
    pub allocation: Option<u64>,
    pub loader: u64,
    pub thread: Option<u64>,
    pub terminate_pending: bool,
    pub outcome: Option<InjectionResult>,
}

/// The state of one injection attempt.
pub struct Injection {
    stage: Stage,
    buffer: Vec<u8>,
    allocation: Option<u64>,
    loader: u64,
    thread: Option<u64>,
    terminate_pending: bool,
    outcome: Option<InjectionResult>,
}

/// The view after a failure: nothing but rollback is left, and the target is
/// to be terminated where `terminate` holds.
pub open spec fn failed(v: InjectionView, e: InjectionError, terminate: bool) -> InjectionView {
    InjectionView {
        stage: Stage::Cleanup,
        outcome: Some(Err(e)),
        terminate_pending: terminate,
        ..v
    }
}

/// The view after the remote thread finished and its exit code was read (or not).
pub open spec fn finished(v: InjectionView, r: InjectionResult) -> InjectionView {
    InjectionView { stage: Stage::Cleanup, outcome: Some(r), ..v }
}

/// How the machine moves on an event; an event that does not answer the
/// pending action leaves it as it is.
pub open spec fn transition(v: InjectionView, buffer_len: nat, e: Event) -> InjectionView {
    match (v.stage, e) {
        (Stage::Allocating, Event::Allocated(Ok(a))) =>
            InjectionView { stage: Stage::Writing, allocation: Some(a), ..v },
        (Stage::Allocating, Event::Allocated(Err(_))) =>
            failed(v, InjectionError::AllocationFailed, true),
        (Stage::Writing, Event::Written(Ok(n))) =>
            if n as nat == buffer_len {
                InjectionView { stage: Stage::Resolving, ..v }
            } else {
                failed(v, InjectionError::WriteFailed, true)
            },
        (Stage::Writing, Event::Written(Err(_))) =>
            failed(v, InjectionError::WriteFailed, true),
        (Stage::Resolving, Event::Resolved(Ok(addr))) =>
            InjectionView { stage: Stage::Spawning, loader: addr, ..v },
        (Stage::Resolving, Event::Resolved(Err(_))) =>
            failed(v, InjectionError::SymbolResolutionFailed, true),
        (Stage::Spawning, Event::Spawned(Some(h))) =>
            InjectionView { stage: Stage::Waiting, thread: Some(h), ..v },
        (Stage::Spawning, Event::Spawned(None)) =>
            failed(v, InjectionError::RemoteThreadFailed, true),
        (Stage::Waiting, Event::Waited { completed }) =>
            if completed {
                InjectionView { stage: Stage::QueryingExit, ..v }
            } else {
                failed(v, InjectionError::Timeout, false)
            },
        (Stage::QueryingExit, Event::ExitCode(code)) =>
            match code {
                Some(c) => if c == 0 {
                    finished(v, Err(InjectionError::LoadReportedFailure))
                } else {
                    finished(v, Ok(c))
                },
                None => finished(v, Err(InjectionError::RemoteThreadFailed)),
            },
        (Stage::Cleanup, Event::Freed) =>
            if v.allocation is Some {
                InjectionView { allocation: None, ..v }
            } else {
                v
            },
        (Stage::Cleanup, Event::ThreadClosed) =>
            if v.allocation is None && v.thread is Some {
                InjectionView { thread: None, ..v }
            } else {
                v
            },
        (Stage::Cleanup, Event::Terminated) =>
            if v.allocation is None && v.thread is None && v.terminate_pending {
                InjectionView { terminate_pending: false, ..v }
            } else {
                v
            },
        _ => v,
    }
}

/// The action that a state asks for.
pub open spec fn action_of(v: InjectionView, buffer_len: nat) -> Action {
    match v.stage {
        Stage::Allocating => Action::Allocate { size: buffer_len as usize },
        Stage::Writing => Action::Write { address: v.allocation->0 },
        Stage::Resolving => Action::ResolveLoader,
        Stage::Spawning => Action::SpawnThread { start: v.loader, argument: v.allocation->0 },
        Stage::Waiting => Action::Wait { thread: v.thread->0, timeout_ms: LOADER_TIMEOUT_MS },
        Stage::QueryingExit => Action::QueryExitCode { thread: v.thread->0 },
        Stage::Cleanup =>
            if v.allocation is Some {
                Action::Free { address: v.allocation->0 }
            } else if v.thread is Some {
                Action::CloseThread { thread: v.thread->0 }
            } else if v.terminate_pending {
                Action::Terminate
            } else {
                Action::Done { result: v.outcome->0 }
            },
    }
}

/// Which resources each stage holds.
pub open spec fn view_wf(v: InjectionView) -> bool {
    match v.stage {
        Stage::Allocating =>
            v.allocation is None && v.thread is None && v.outcome is None && !v.terminate_pending,
        Stage::Writing | Stage::Resolving | Stage::Spawning =>
            v.allocation is Some && v.thread is None && v.outcome is None && !v.terminate_pending,
        Stage::Waiting | Stage::QueryingExit =>
            v.allocation is Some && v.thread is Some && v.outcome is None && !v.terminate_pending,
        Stage::Cleanup => v.outcome is Some,
    }
}

pub open spec fn stage_rank(s: Stage) -> nat {
    match s {
        Stage::Allocating => 24,
        Stage::Writing => 20,
        Stage::Resolving => 16,
        Stage::Spawning => 12,
        Stage::Waiting => 8,
        Stage::QueryingExit => 4,
        Stage::Cleanup => 0,
    }
}

/// A bound on the actions left: every accepted event lowers it.
pub open spec fn measure(v: InjectionView) -> nat {
    stage_rank(v.stage)
        + (if v.allocation is Some { 1nat } else { 0nat })
        + (if v.thread is Some { 1nat } else { 0nat })
        + (if v.terminate_pending { 1nat } else { 0nat })
}

/// Once the machine reports a result, the allocation is freed, the thread
/// handle closed and any termination done.
pub proof fn lemma_done_releases_everything(v: InjectionView, buffer_len: nat)
    requires
        view_wf(v),
        action_of(v, buffer_len) is Done,
    ensures
        v.allocation is None,
        v.thread is None,
        !v.terminate_pending,
        action_of(v, buffer_len) == (Action::Done { result: v.outcome->0 }),
{
}

/// An event either moves the machine strictly closer to its end or, where it
/// does not answer the pending action, leaves it unchanged.
pub proof fn lemma_transition_progress(v: InjectionView, buffer_len: nat, e: Event)
    requires
        view_wf(v),
    ensures
        view_wf(transition(v, buffer_len, e)),
        transition(v, buffer_len, e) == v || measure(transition(v, buffer_len, e)) < measure(v),
{
}

/// A release reported again once the allocation is gone changes nothing: the
/// rollback frees the allocation exactly once.
pub proof fn lemma_repeated_free_ignored(v: InjectionView, buffer_len: nat)
    requires
        view_wf(v),
        v.stage == Stage::Cleanup,
        v.allocation is None,
    ensures
        transition(v, buffer_len, Event::Freed) == v,
        !(action_of(v, buffer_len) is Free),
{
}

/// `e` is the kind of event that answers `a`.
pub open spec fn answers(a: Action, e: Event) -> bool {
    match (a, e) {
        (Action::Allocate { .. }, Event::Allocated(_)) => true,
        (Action::Write { .. }, Event::Written(_)) => true,
        (Action::ResolveLoader, Event::Resolved(_)) => true,
        (Action::SpawnThread { .. }, Event::Spawned(_)) => true,
        (Action::Wait { .. }, Event::Waited { .. }) => true,
        (Action::QueryExitCode { .. }, Event::ExitCode(_)) => true,
        (Action::Free { .. }, Event::Freed) => true,
        (Action::CloseThread { .. }, Event::ThreadClosed) => true,
        (Action::Terminate, Event::Terminated) => true,
        _ => false,
    }
}

/// Answering the pending action, whatever its outcome, moves the machine
/// strictly closer to `Done`: a driver that answers every action finishes.
pub proof fn lemma_answer_progress(v: InjectionView, buffer_len: nat, e: Event)
    requires
        view_wf(v),
        answers(action_of(v, buffer_len), e),
    ensures
        view_wf(transition(v, buffer_len, e)),
        measure(transition(v, buffer_len, e)) < measure(v),
{
}

impl Injection {
    pub closed spec fn view(&self) -> InjectionView {
        InjectionView {
            stage: self.stage,
            allocation: self.allocation,
            loader: self.loader,
            thread: self.thread,
            terminate_pending: self.terminate_pending,
            outcome: self.outcome,
        }
    }

    pub closed spec fn spec_buffer(&self) -> Seq<u8> {
        self.buffer@
    }

    pub open spec fn wf(&self) -> bool {
        view_wf(self.view()) && self.spec_buffer().len() >= 1
    }

    /// A fresh attempt to load the module at `path`.
    pub fn new(path: &ModulePath) -> (r: Injection)
        requires
            path.wf(),
        ensures
            r.wf(),
            r.view().stage == Stage::Allocating,
            r.spec_buffer() == path.path_bytes().push(0u8),
    {
        Injection {
            stage: Stage::Allocating,
            buffer: path.to_c_bytes(),
            allocation: None,
            loader: 0,
            thread: None,
            terminate_pending: false,
            outcome: None,
        }
    }

    /// The NUL-terminated path that the `Write` action copies.
    pub fn buffer(&self) -> (r: &[u8])
        ensures
            r@ == self.spec_buffer(),
    {
        self.buffer.as_slice()
    }

    /// The action that the current state asks for.
    pub fn next_action(&self) -> (a: Action)
        requires
            self.wf(),
        ensures
            a == action_of(self.view(), self.spec_buffer().len()),
    {
        match self.stage {
            Stage::Allocating => Action::Allocate { size: self.buffer.len() },
            Stage::Writing => Action::Write { address: self.allocation.unwrap() },
            Stage::Resolving => Action::ResolveLoader,
            Stage::Spawning => Action::SpawnThread {
                start: self.loader,
                argument: self.allocation.unwrap(),
            },
            Stage::Waiting => Action::Wait {
                thread: self.thread.unwrap(),
                timeout_ms: LOADER_TIMEOUT_MS,
            },
            Stage::QueryingExit => Action::QueryExitCode { thread: self.thread.unwrap() },
            Stage::Cleanup => {
                match self.allocation {
                    Some(a) => Action::Free { address: a },
                    None => match self.thread {
                        Some(t) => Action::CloseThread { thread: t },
                        None => if self.terminate_pending {
                            Action::Terminate
                        } else {
                            Action::Done { result: self.outcome.unwrap() }
                        },
                    },
                }
            },
        }
    }

    fn fail(&mut self, e: InjectionError, terminate: bool)
        ensures
            final(self).view() == failed(old(self).view(), e, terminate),
            final(self).spec_buffer() == old(self).spec_buffer(),
    {
        self.stage = Stage::Cleanup;
        self.outcome = Some(Err(e));
        self.terminate_pending = terminate;
    }

    /// Takes in what came of the last action and says what to do next.
    pub fn advance(&mut self, event: Event) -> (a: Action)
        requires
            old(self).wf(),
        ensures
            final(self).wf(),
            final(self).view() == transition(old(self).view(), old(self).spec_buffer().len(), event),
            final(self).spec_buffer() == old(self).spec_buffer(),
            a == action_of(final(self).view(), final(self).spec_buffer().len()),
    {
        proof {
            lemma_transition_progress(self.view(), self.spec_buffer().len(), event);
        }
        match (self.stage, event) {
            (Stage::Allocating, Event::Allocated(Ok(a))) => {
                self.allocation = Some(a);
                self.stage = Stage::Writing;
            },
            (Stage::Allocating, Event::Allocated(Err(_))) => {
                self.fail(InjectionError::AllocationFailed, true);
            },
            (Stage::Writing, Event::Written(Ok(n))) => {
                if n == self.buffer.len() {
                    self.stage = Stage::Resolving;
                } else {
                    self.fail(InjectionError::WriteFailed, true);
                }
            },
            (Stage::Writing, Event::Written(Err(_))) => {
                self.fail(InjectionError::WriteFailed, true);
            },
            (Stage::Resolving, Event::Resolved(Ok(addr))) => {
                self.loader = addr;
                self.stage = Stage::Spawning;
            },
            (Stage::Resolving, Event::Resolved(Err(_))) => {
                self.fail(InjectionError::SymbolResolutionFailed, true);
            },
            (Stage::Spawning, Event::Spawned(Some(h))) => {
                self.thread = Some(h);
                self.stage = Stage::Waiting;
            },
            (Stage::Spawning, Event::Spawned(None)) => {
                self.fail(InjectionError::RemoteThreadFailed, true);
            },
            (Stage::Waiting, Event::Waited { completed }) => {
                if completed {
                    self.stage = Stage::QueryingExit;
                } else {
                    self.fail(InjectionError::Timeout, false);
                }
            },
            (Stage::QueryingExit, Event::ExitCode(code)) => {
                self.stage = Stage::Cleanup;
                self.outcome = Some(
                    match code {
                        Some(c) => if c == 0 {
                            Err(InjectionError::LoadReportedFailure)
                        } else {
                            Ok(c)
                        },
                        None => Err(InjectionError::RemoteThreadFailed),
                    },
                );
            },
            (Stage::Cleanup, Event::Freed) => {
                if self.allocation.is_some() {
                    self.allocation = None;
                }
            },
            (Stage::Cleanup, Event::ThreadClosed) => {
                if self.allocation.is_none() && self.thread.is_some() {
                    self.thread = None;
                }
            },
            (Stage::Cleanup, Event::Terminated) => {
                if self.allocation.is_none() && self.thread.is_none() && self.terminate_pending {
                    self.terminate_pending = false;
                }
            },
            _ => {},
        }
        self.next_action()
    }
}

} // verus!
