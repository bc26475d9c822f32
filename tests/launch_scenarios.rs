use mafia2_injector::injector::ModulePath;
use mafia2_injector::launcher::{LaunchPolicy, TargetProcess};
use mafia2_injector::loopback::LoopbackProcess;
use mafia2_injector::remote::LaunchError;
use mafia2_injector::simulate::{LoopbackLauncher, LOOPBACK_PID, LOOPBACK_PROCESS, LOOPBACK_THREAD};

#[test]
fn launch_then_inject_happy_path() {
    let mut launcher = LoopbackLauncher::new(false, false, 3);
    let target = launcher.launch(LaunchPolicy::standard()).unwrap();
    assert_eq!(target, TargetProcess { process: LOOPBACK_PROCESS, thread: LOOPBACK_THREAD, pid: LOOPBACK_PID });
    assert!(!launcher.is_suspended());
    assert!(!launcher.is_terminated());
    assert_eq!(launcher.queries(), 3);
    assert_eq!(launcher.open_handles(), &[LOOPBACK_PROCESS, LOOPBACK_THREAD]);

    let mut memory = LoopbackProcess::new(64, Some(1));
    memory.add_export("kernel32.dll", "LoadLibraryA", 0x7ff8_0000_1000);
    let path = ModulePath::new("C:\\Games\\Mafia II\\pc\\ebn_client_001.dll").unwrap();
    assert_eq!(path.to_c_bytes().len(), 40);
    assert_eq!(memory.inject(&path), Ok(1));
    assert_eq!(memory.live_allocations(), 0);
    assert_eq!(memory.open_threads(), 0);
}

#[test]
fn launch_refused_creation() {
    let mut launcher = LoopbackLauncher::new(true, false, 1);
    assert_eq!(launcher.launch(LaunchPolicy::standard()), Err(LaunchError::SpawnFailed));
    assert!(!launcher.is_created());
    assert!(launcher.open_handles().is_empty());
}

#[test]
fn launch_refused_resume_leaves_no_suspended_process() {
    let mut launcher = LoopbackLauncher::new(false, true, 1);
    assert_eq!(launcher.launch(LaunchPolicy::standard()), Err(LaunchError::SpawnFailed));
    assert!(launcher.is_created());
    assert!(launcher.is_terminated());
    assert!(launcher.open_handles().is_empty());
    assert_eq!(launcher.queries(), 0);
}

#[test]
fn launch_times_out_when_image_never_maps() {
    let policy = LaunchPolicy { max_polls: 5, poll_interval_ms: 1, settle_ms: 1 };
    let mut launcher = LoopbackLauncher::new(false, false, 6);
    assert_eq!(launcher.launch(policy), Err(LaunchError::InitializationTimeout));
    assert_eq!(launcher.queries(), 5);
    assert!(launcher.is_terminated());
    assert!(launcher.open_handles().is_empty());
}

#[test]
fn launch_with_zero_poll_budget_still_queries_once() {
    let policy = LaunchPolicy { max_polls: 0, poll_interval_ms: 1, settle_ms: 1 };
    let mut ok = LoopbackLauncher::new(false, false, 1);
    assert!(ok.launch(policy).is_ok());
    assert_eq!(ok.queries(), 1);
    let mut late = LoopbackLauncher::new(false, false, 2);
    assert_eq!(late.launch(policy), Err(LaunchError::InitializationTimeout));
    assert_eq!(late.queries(), 1);
}
