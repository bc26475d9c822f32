use mafia2_injector::launcher::{Launch, LaunchAction, LaunchEvent, LaunchPolicy, TargetProcess};
use mafia2_injector::logger::{self, ConsoleStream, LogLevel, LogSettings, LogTarget};
use mafia2_injector::remote::LaunchError;

const T: TargetProcess = TargetProcess { process: 0x40, thread: 0x44, pid: 1234 };

#[test]
fn launch_resumes_polls_and_settles() {
    let policy = LaunchPolicy::standard();
    assert_eq!(policy.max_polls, 50);
    let mut l = Launch::new(policy);
    assert_eq!(l.next_action(), LaunchAction::CreateSuspended);
    assert_eq!(l.advance(LaunchEvent::Created(Some(T))), LaunchAction::ResumeThread { thread: 0x44 });
    assert_eq!(l.advance(LaunchEvent::Resumed(true)), LaunchAction::QueryMainModule { process: 0x40 });
    assert_eq!(l.advance(LaunchEvent::ModuleQueried(false)), LaunchAction::Sleep { ms: 100 });
    assert_eq!(l.advance(LaunchEvent::Slept), LaunchAction::QueryMainModule { process: 0x40 });
    assert_eq!(l.advance(LaunchEvent::ModuleQueried(true)), LaunchAction::Settle { ms: 5000 });
    assert_eq!(l.advance(LaunchEvent::Settled), LaunchAction::Ready { target: T });
}

#[test]
fn launch_creation_failure() {
    let mut l = Launch::new(LaunchPolicy::standard());
    assert_eq!(l.advance(LaunchEvent::Created(None)), LaunchAction::Failed { error: LaunchError::SpawnFailed });
}

#[test]
fn launch_resume_failure_terminates_and_closes() {
    let mut l = Launch::new(LaunchPolicy::standard());
    l.advance(LaunchEvent::Created(Some(T)));
    assert_eq!(l.advance(LaunchEvent::Resumed(false)), LaunchAction::Terminate { process: 0x40 });
    assert_eq!(l.advance(LaunchEvent::Terminated), LaunchAction::CloseHandle { handle: 0x44 });
    assert_eq!(l.advance(LaunchEvent::HandleClosed), LaunchAction::CloseHandle { handle: 0x40 });
    assert_eq!(l.advance(LaunchEvent::HandleClosed), LaunchAction::Failed { error: LaunchError::SpawnFailed });
}

#[test]
fn launch_times_out_after_max_polls() {
    let mut l = Launch::new(LaunchPolicy { max_polls: 3, poll_interval_ms: 10, settle_ms: 0 });
    l.advance(LaunchEvent::Created(Some(T)));
    l.advance(LaunchEvent::Resumed(true));
    let mut queries = 0;
    let mut a = LaunchAction::QueryMainModule { process: 0x40 };
    while let LaunchAction::QueryMainModule { .. } = a {
        queries += 1;
        a = l.advance(LaunchEvent::ModuleQueried(false));
        if let LaunchAction::Sleep { .. } = a {
            a = l.advance(LaunchEvent::Slept);
        }
    }
    assert_eq!(queries, 3);
    assert_eq!(a, LaunchAction::Terminate { process: 0x40 });
    l.advance(LaunchEvent::Terminated);
    l.advance(LaunchEvent::HandleClosed);
    assert_eq!(
        l.advance(LaunchEvent::HandleClosed),
        LaunchAction::Failed { error: LaunchError::InitializationTimeout }
    );
}

#[test]
fn log_line_format() {
    let line = logger::format_line("2024-01-02 03:04:05.678", LogLevel::Info, "hello");
    assert_eq!(line, "[2024-01-02 03:04:05.678] INFO hello\n");
}

#[test]
fn log_levels_filter_and_route() {
    let s = LogSettings { level: LogLevel::Info, target: LogTarget::Both };
    assert!(logger::debug(&s, "t", "m").is_none());
    let r = logger::info(&s, "t", "m").unwrap();
    assert_eq!(r.line, "[t] INFO m\n");
    assert_eq!(r.console, Some(ConsoleStream::Stdout));
    assert!(r.to_file);
    let w = logger::warning(&s, "t", "careful").unwrap();
    assert_eq!(w.line, "[t] WARNING careful\n");
    let e = logger::error(&s, "t", "bad").unwrap();
    assert_eq!(e.line, "[t] ERROR bad\n");
    assert_eq!(e.console, Some(ConsoleStream::Stderr));
}

#[test]
fn log_targets() {
    let file = LogSettings { level: LogLevel::Debug, target: LogTarget::File };
    let r = logger::debug(&file, "t", "m").unwrap();
    assert_eq!(r.line, "[t] DEBUG m\n");
    assert_eq!(r.console, None);
    assert!(r.to_file);
    assert!(file.needs_file());
    let console = LogSettings { level: LogLevel::Error, target: LogTarget::Console };
    assert!(!console.needs_file());
    assert!(logger::warning(&console, "t", "m").is_none());
    assert!(!logger::error(&console, "t", "m").unwrap().to_file);
}

#[test]
fn log_file_name_carries_timestamp() {
    assert_eq!(
        logger::log_file_name("launcher", "2024-01-02_03-04-05", "log"),
        "launcher_2024-01-02_03-04-05.log"
    );
    assert_eq!(LogLevel::Warning.rank(), 2);
    assert_eq!(LogLevel::Error.label(), "ERROR");
}
