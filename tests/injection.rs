use mafia2_injector::injector::{Action, Event, Injection, ModulePath, PathError, LOADER_TIMEOUT_MS};
use mafia2_injector::loopback::{LoopbackProcess, Op, LOOPBACK_BASE};
use mafia2_injector::remote::{AllocError, InjectionError, PipelineError, LaunchError, Protection, ResolveError, WriteError};

const LOADER: u64 = 0x7ff8_1234_5000;

// 39 characters: with its NUL the buffer is 40 bytes.
const CLIENT_PATH: &str = "C:\\Games\\Mafia II\\pc\\ebn_client_001.dll";

fn target(exit: Option<u32>) -> LoopbackProcess {
    let mut p = LoopbackProcess::new(64, exit);
    p.add_export("kernel32.dll", "LoadLibraryA", LOADER);
    p
}

fn client_path() -> ModulePath {
    assert_eq!(CLIENT_PATH.len(), 39);
    match ModulePath::new(CLIENT_PATH) {
        Ok(m) => m,
        Err(e) => panic!("path refused: {:?}", e),
    }
}

#[test]
fn happy_path_reports_module_handle() {
    let mut p = target(Some(1));
    let r = p.inject(&client_path());
    assert_eq!(r, Ok(1));
    assert_eq!(p.live_allocations(), 0);
    assert_eq!(p.open_threads(), 0);
    assert_eq!(
        p.history(),
        &[
            Op::Allocated(LOOPBACK_BASE),
            Op::Wrote(LOOPBACK_BASE),
            Op::Spawned { handle: 1, start: LOADER, argument: LOOPBACK_BASE },
            Op::Freed(LOOPBACK_BASE),
            Op::ThreadClosed(1),
        ]
    );
}

#[test]
fn happy_path_buffer_round_trips() {
    let mut p = target(Some(1));
    let a = p.allocate(64, Protection::ReadWrite).unwrap();
    assert_eq!(a.size, 64);
    let mut bytes = CLIENT_PATH.as_bytes().to_vec();
    bytes.push(0);
    assert_eq!(bytes.len(), 40);
    assert_eq!(p.write(a.address, &bytes), Ok(40));
    assert_eq!(p.read(a.address, 40), Some(bytes.clone()));
    assert_eq!(p.resolve("kernel32.dll", "LoadLibraryA"), Ok(LOADER));
    let t = p.spawn_thread(LOADER, a.address).unwrap();
    assert!(p.wait(t));
    assert_eq!(p.exit_code(t), Some(1));
    assert!(p.free(a.address));
    assert!(p.close_thread(t));
    assert_eq!(p.live_allocations(), 0);
    assert_eq!(p.open_threads(), 0);
}

#[test]
fn module_fails_to_load() {
    let mut p = target(Some(0));
    let r = p.inject(&client_path());
    assert_eq!(r, Err(InjectionError::LoadReportedFailure));
    assert_eq!(p.live_allocations(), 0);
    assert_eq!(p.open_threads(), 0);
    assert!(!p.history().contains(&Op::Terminated));
    assert!(p.history().contains(&Op::Freed(LOOPBACK_BASE)));
}

#[test]
fn symbol_missing() {
    let mut p = LoopbackProcess::new(64, Some(1));
    p.add_export("kernel32.dll", "GetProcAddress", LOADER);
    assert_eq!(p.resolve("kernel32.dll", "NoSuchSymbol"), Err(ResolveError::SymbolNotFound));
    let r = p.inject(&client_path());
    assert_eq!(r, Err(InjectionError::SymbolResolutionFailed));
    assert_eq!(p.live_allocations(), 0);
    assert_eq!(
        p.history(),
        &[
            Op::Allocated(LOOPBACK_BASE),
            Op::Wrote(LOOPBACK_BASE),
            Op::Freed(LOOPBACK_BASE),
            Op::Terminated,
        ]
    );
}

#[test]
fn module_missing_from_resolver() {
    let p = LoopbackProcess::new(64, Some(1));
    assert_eq!(p.resolve("kernel32.dll", "LoadLibraryA"), Err(ResolveError::ModuleNotFound));
}

#[test]
fn timeout_releases_everything() {
    let mut p = target(None);
    let r = p.inject(&client_path());
    assert_eq!(r, Err(InjectionError::Timeout));
    assert_eq!(p.live_allocations(), 0);
    assert_eq!(p.open_threads(), 0);
    assert!(!p.history().contains(&Op::Terminated));
    assert_eq!(p.history().len(), 5);
}

#[test]
fn allocation_failure_short_circuits() {
    let mut p = LoopbackProcess::new(8, Some(1));
    p.add_export("kernel32.dll", "LoadLibraryA", LOADER);
    let r = p.inject(&client_path());
    assert_eq!(r, Err(InjectionError::AllocationFailed));
    assert_eq!(p.history(), &[Op::Terminated]);
    assert_eq!(p.live_allocations(), 0);
}

#[test]
fn write_failure_frees_and_terminates() {
    let mut p = target(Some(1));
    p.set_deny_writes(true);
    let r = p.inject(&client_path());
    assert_eq!(r, Err(InjectionError::WriteFailed));
    assert_eq!(
        p.history(),
        &[
            Op::Allocated(LOOPBACK_BASE),
            Op::Wrote(LOOPBACK_BASE),
            Op::Freed(LOOPBACK_BASE),
            Op::Terminated,
        ]
    );
}

#[test]
fn free_twice_is_harmless() {
    let mut p = target(Some(1));
    let a = p.allocate(16, Protection::ReadWrite).unwrap();
    assert!(p.free(a.address));
    assert!(!p.free(a.address));
    assert_eq!(p.history(), &[Op::Allocated(a.address), Op::Freed(a.address)]);
    assert_eq!(p.live_allocations(), 0);
}

#[test]
fn zero_and_oversized_allocations_are_refused() {
    let mut p = target(Some(1));
    assert_eq!(p.allocate(0, Protection::ReadWrite), Err(AllocError::OutOfMemory));
    assert_eq!(p.allocate(65, Protection::ReadWrite), Err(AllocError::OutOfMemory));
    assert!(p.history().is_empty());
}

#[test]
fn short_and_denied_writes() {
    let mut p = target(Some(1));
    let a = p.allocate(4, Protection::ReadWrite).unwrap();
    assert_eq!(p.write(a.address, &[1, 2, 3, 4, 5]), Err(WriteError::ShortWrite));
    assert_eq!(p.read(a.address, 4), Some(vec![0, 0, 0, 0]));
    let ro = p.allocate(4, Protection::ReadOnly).unwrap();
    assert_eq!(p.write(ro.address, &[1]), Err(WriteError::AccessDenied));
    assert_eq!(p.write(0x42, &[1]), Err(WriteError::AccessDenied));
    assert_eq!(p.write(a.address, &[9, 8]), Ok(2));
    assert_eq!(p.read(a.address, 4), Some(vec![9, 8, 0, 0]));
    assert_eq!(p.read(a.address, 5), None);
}

#[test]
fn module_path_checks() {
    assert!(matches!(ModulePath::new("relative\\client.dll"), Err(PathError::NotAbsolute)));
    assert!(matches!(ModulePath::new("C:\\a\0b.dll"), Err(PathError::InteriorNul)));
    assert!(ModulePath::new("\\\\server\\share\\client.dll").is_ok());
    assert!(ModulePath::new("d:/games/client.dll").is_ok());
    let m = ModulePath::new("C:\\x.dll").unwrap();
    assert_eq!(m.to_c_bytes(), b"C:\\x.dll\0".to_vec());
}

#[test]
fn machine_rolls_back_failed_spawn() {
    let mut m = Injection::new(&ModulePath::new("C:\\x.dll").unwrap());
    assert_eq!(m.next_action(), Action::Allocate { size: 9 });
    assert_eq!(m.buffer(), b"C:\\x.dll\0");
    assert_eq!(m.advance(Event::Allocated(Ok(0x5000))), Action::Write { address: 0x5000 });
    assert_eq!(m.advance(Event::Written(Ok(9))), Action::ResolveLoader);
    assert_eq!(m.advance(Event::Resolved(Ok(LOADER))), Action::SpawnThread { start: LOADER, argument: 0x5000 });
    assert_eq!(m.advance(Event::Spawned(None)), Action::Free { address: 0x5000 });
    assert_eq!(m.advance(Event::Freed), Action::Terminate);
    assert_eq!(m.advance(Event::Terminated), Action::Done { result: Err(InjectionError::RemoteThreadFailed) });
}

#[test]
fn machine_treats_short_write_as_failure() {
    let mut m = Injection::new(&ModulePath::new("C:\\x.dll").unwrap());
    m.advance(Event::Allocated(Ok(0x5000)));
    assert_eq!(m.advance(Event::Written(Ok(3))), Action::Free { address: 0x5000 });
    assert_eq!(m.advance(Event::Freed), Action::Terminate);
    assert_eq!(m.advance(Event::Terminated), Action::Done { result: Err(InjectionError::WriteFailed) });
}

#[test]
fn machine_ignores_unrelated_events() {
    let mut m = Injection::new(&ModulePath::new("C:\\x.dll").unwrap());
    assert_eq!(m.advance(Event::Freed), Action::Allocate { size: 9 });
    assert_eq!(m.advance(Event::Allocated(Err(AllocError::OutOfMemory))), Action::Terminate);
    assert_eq!(m.advance(Event::Freed), Action::Terminate);
    assert_eq!(m.advance(Event::Terminated), Action::Done { result: Err(InjectionError::AllocationFailed) });
}

#[test]
fn machine_waits_with_fixed_timeout() {
    let mut m = Injection::new(&ModulePath::new("C:\\x.dll").unwrap());
    m.advance(Event::Allocated(Ok(0x5000)));
    m.advance(Event::Written(Ok(9)));
    m.advance(Event::Resolved(Ok(LOADER)));
    assert_eq!(m.advance(Event::Spawned(Some(77))), Action::Wait { thread: 77, timeout_ms: LOADER_TIMEOUT_MS });
    assert_eq!(LOADER_TIMEOUT_MS, 10000);
    assert_eq!(m.advance(Event::Waited { completed: true }), Action::QueryExitCode { thread: 77 });
    assert_eq!(m.advance(Event::ExitCode(None)), Action::Free { address: 0x5000 });
    assert_eq!(m.advance(Event::Freed), Action::CloseThread { thread: 77 });
    assert_eq!(m.advance(Event::ThreadClosed), Action::Done { result: Err(InjectionError::RemoteThreadFailed) });
}

#[test]
fn failure_stages_are_named() {
    assert_eq!(PipelineError::Launch(LaunchError::SpawnFailed).stage(), "process creation");
    assert_eq!(PipelineError::Injection(InjectionError::AllocationFailed).stage(), "memory allocation");
    assert_eq!(PipelineError::Injection(InjectionError::WriteFailed).stage(), "memory write");
    assert_eq!(PipelineError::Injection(InjectionError::SymbolResolutionFailed).stage(), "symbol resolution");
    assert_eq!(PipelineError::Injection(InjectionError::LoadReportedFailure).stage(), "remote execution");
    assert_eq!(
        PipelineError::Injection(InjectionError::Timeout).stage(),
        "remote execution exceeding its time budget"
    );
}
