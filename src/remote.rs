//! What the remote memory channel, the symbol resolver and the launcher hand
//! back: remote allocations and the typed failures of each component.

use vstd::prelude::*;

verus! {

/// Access rights of a remote allocation.
#[derive(Clone, Copy, Debug, PartialEq, Eq, Structural)]
pub enum Protection {
    ReadOnly,
    ReadWrite,
}

/// Memory reserved and committed inside the target process.
#[derive(Clone, Copy, Debug, PartialEq, Eq, Structural)]
pub struct RemoteAllocation {
    pub address: u64,
    pub size: usize,
    pub protection: Protection,
}

#[derive(Clone, Copy, Debug, PartialEq, Eq, Structural)]
pub enum AllocError {
    /// The operating system denied the request (it returned a null address).
    OutOfMemory,
}

#[derive(Clone, Copy, Debug, PartialEq, Eq, Structural)]
pub enum WriteError {
    /// Fewer bytes were copied than requested.
    ShortWrite,
    /// The target refused the write.
    AccessDenied,
}

#[derive(Clone, Copy, Debug, PartialEq, Eq, Structural)]
pub enum ResolveError {
    ModuleNotFound,
    SymbolNotFound,
}

#[derive(Clone, Copy, Debug, PartialEq, Eq, Structural)]
pub enum LaunchError {
    /// The process could not be created or its initial thread not resumed.
    SpawnFailed,
    /// The main image did not become queryable within the polling budget.
    InitializationTimeout,
}

#[derive(Clone, Copy, Debug, PartialEq, Eq, Structural)]
pub enum InjectionError {
    AllocationFailed,
    WriteFailed,
    SymbolResolutionFailed,
    /// The remote thread could not be created, or its exit code not read.
    RemoteThreadFailed,
    /// The remote thread did not finish within the time budget.
    Timeout,
    /// The remote thread finished and reported that the module did not load.
    LoadReportedFailure,
}

/// The outcome of one injection: the loaded module's handle as the remote
/// thread reported it, or the step that failed.
pub type InjectionResult = Result<u32, InjectionError>;

/// A failure of the whole launch-then-inject pipeline.
#[derive(Clone, Copy, Debug, PartialEq, Eq, Structural)]
pub enum PipelineError {
    Launch(LaunchError),
    Injection(InjectionError),
}

/// The stage that a pipeline failure names to the user.
pub open spec fn stage_text(e: PipelineError) -> Seq<char> {
    match e {
        PipelineError::Launch(LaunchError::SpawnFailed) => "process creation"@,
        PipelineError::Launch(LaunchError::InitializationTimeout) => "process initialization"@,
        PipelineError::Injection(InjectionError::AllocationFailed) => "memory allocation"@,
        PipelineError::Injection(InjectionError::WriteFailed) => "memory write"@,
        PipelineError::Injection(InjectionError::SymbolResolutionFailed) => "symbol resolution"@,
        PipelineError::Injection(InjectionError::RemoteThreadFailed) => "remote execution"@,
        PipelineError::Injection(InjectionError::LoadReportedFailure) => "remote execution"@,
        PipelineError::Injection(InjectionError::Timeout) => "remote execution exceeding its time budget"@,
    }
}

impl PipelineError {
    /// Names the stage at which the pipeline failed.
    pub fn stage(&self) -> (r: &'static str)
        ensures
            r@ == stage_text(*self),
    {
        match self {
            PipelineError::Launch(LaunchError::SpawnFailed) => "process creation",
            PipelineError::Launch(LaunchError::InitializationTimeout) => "process initialization",
            PipelineError::Injection(InjectionError::AllocationFailed) => "memory allocation",
            PipelineError::Injection(InjectionError::WriteFailed) => "memory write",
            PipelineError::Injection(InjectionError::SymbolResolutionFailed) => "symbol resolution",
            PipelineError::Injection(InjectionError::RemoteThreadFailed) => "remote execution",
            PipelineError::Injection(InjectionError::LoadReportedFailure) => "remote execution",
            PipelineError::Injection(InjectionError::Timeout) => "remote execution exceeding its time budget",
        }
    }
}

} // verus!
