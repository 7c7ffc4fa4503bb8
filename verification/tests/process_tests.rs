use voicepty::process::{
    find_agent_command, read_loop_step, select_command, AgentError, AgentProcess, LoopStep,
    MockAgentProcess, ProcessStatus, ProcessSupervisor, ReadOutcome, StartOutcome, DEFAULT_COLS,
    DEFAULT_ROWS,
};

#[test]
fn test_mock_start_stop() {
    let mut process = MockAgentProcess::new();

    assert_eq!(process.status(), ProcessStatus::Stopped);

    process.start(None).unwrap();
    assert_eq!(process.status(), ProcessStatus::Running);
    assert_eq!(process.start_count(), 1);

    process.stop().unwrap();
    assert_eq!(process.status(), ProcessStatus::Stopped);
    assert_eq!(process.stop_count(), 1);
}

#[test]
fn process_test_mock_start_fails() {
    let mut process = MockAgentProcess::new();
    process.set_should_fail(true);

    let result = process.start(None);
    assert!(matches!(result, Err(AgentError::AgentNotFound)));
    assert!(matches!(process.status(), ProcessStatus::Error(_)));
}

#[test]
fn test_mock_send_input() {
    let mut process = MockAgentProcess::new();
    process.start(None).unwrap();

    process.send_input("Hello there").unwrap();
    process.send_input("How are you?").unwrap();

    let history = process.input_history();
    assert_eq!(history.len(), 2);
    assert_eq!(history[0], "Hello there");
    assert_eq!(history[1], "How are you?");
}

#[test]
fn test_mock_send_input_not_running() {
    let mut process = MockAgentProcess::new();

    let result = process.send_input("Hello");
    assert!(matches!(result, Err(AgentError::NotRunning)));
    assert!(process.input_history().is_empty());
}

#[test]
fn test_mock_resize() {
    let mut process = MockAgentProcess::new();
    process.start(None).unwrap();

    process.resize(120, 40).unwrap();
    assert_eq!(process.current_size(), (120, 40));
}

#[test]
fn test_mock_resize_not_running() {
    let mut process = MockAgentProcess::new();

    let result = process.resize(120, 40);
    assert!(matches!(result, Err(AgentError::NotRunning)));
}

#[test]
fn test_mock_output_callback() {
    let mut process = MockAgentProcess::new();
    process.set_output_callback();

    process.simulate_output("Test output", false);
    process.simulate_output("Error output", true);

    let events = process.delivered_events();
    assert_eq!(events.len(), 2);
    assert_eq!(events[0].data, "Test output");
    assert!(!events[0].is_error);
    assert_eq!(events[1].data, "Error output");
    assert!(events[1].is_error);
}

#[test]
fn test_mock_output_without_callback() {
    let mut process = MockAgentProcess::new();
    process.simulate_output("dropped", false);
    assert!(process.delivered_events().is_empty());
}

#[test]
fn test_agent_error_display() {
    let err = AgentError::NotRunning;
    assert_eq!(err.message(), "Process not running");

    let err = AgentError::AgentNotFound;
    assert_eq!(err.message(), "Agent not found in PATH");

    let err = AgentError::WriteError("io error".to_string());
    assert!(err.message().contains("io error"));
}

#[test]
fn test_agent_error_messages_carry_detail() {
    assert_eq!(
        AgentError::PtySpawnError("no tty".to_string()).message(),
        "Failed to spawn PTY: no tty"
    );
    assert_eq!(
        AgentError::ReadError("pipe gone".to_string()).message(),
        "Failed to read from process: pipe gone"
    );
}

#[test]
fn test_select_command_order() {
    let candidates = vec!["first".to_string(), "second".to_string()];
    assert_eq!(select_command(&candidates, &vec![true, true]).unwrap(), "first");
    assert_eq!(select_command(&candidates, &vec![true, false]).unwrap(), "first");
    assert_eq!(select_command(&candidates, &vec![false, true]).unwrap(), "second");
    assert!(matches!(
        select_command(&candidates, &vec![false, false]),
        Err(AgentError::AgentNotFound)
    ));
}

#[test]
fn test_find_agent_command_probes_path() {
    // Whatever this machine has installed, a located command is one of
    // the given candidates, and the only failure is the lookup error.
    let candidates = vec!["sh".to_string(), "cargo".to_string()];
    match find_agent_command(&candidates) {
        Ok(c) => assert!(candidates.contains(&c)),
        Err(e) => assert!(matches!(e, AgentError::AgentNotFound)),
    }
}

#[test]
fn test_find_agent_command_none_found() {
    let candidates = vec!["no-such-program-anywhere-xq".to_string()];
    let r = find_agent_command(&candidates);
    assert!(matches!(r, Err(AgentError::AgentNotFound)));
}

#[test]
fn test_supervisor_start_command_not_found() {
    // An executable name not present on the system: the start fails
    // with the lookup error and the status remains Stopped.
    let mut sup = ProcessSupervisor::new();
    assert!(sup.begin_start());
    let result = sup.on_start_outcome(StartOutcome::CommandNotFound);
    assert!(matches!(result, Err(AgentError::AgentNotFound)));
    assert_eq!(sup.status_snapshot(), ProcessStatus::Stopped);
}

#[test]
fn test_supervisor_spawn_failure_sets_error() {
    let mut sup = ProcessSupervisor::new();
    assert!(sup.begin_start());
    let result = sup.on_start_outcome(StartOutcome::SpawnFailed("no pty".to_string()));
    assert!(matches!(result, Err(AgentError::PtySpawnError(m)) if m == "no pty"));
    assert!(matches!(sup.status_snapshot(), ProcessStatus::Error(m) if m == "no pty"));

    // Error is resumable by a fresh start.
    assert!(sup.begin_start());
    sup.on_start_outcome(StartOutcome::Spawned).unwrap();
    assert_eq!(sup.status_snapshot(), ProcessStatus::Running);
}

#[test]
fn test_supervisor_lifecycle() {
    let mut sup = ProcessSupervisor::new();
    assert_eq!(sup.status_snapshot(), ProcessStatus::Stopped);

    assert!(sup.begin_start());
    assert_eq!(sup.status_snapshot(), ProcessStatus::Starting);
    sup.on_start_outcome(StartOutcome::Spawned).unwrap();
    assert_eq!(sup.status_snapshot(), ProcessStatus::Running);
    assert_eq!(sup.cols, DEFAULT_COLS);
    assert_eq!(sup.rows, DEFAULT_ROWS);

    // A second start is a no-op success.
    assert!(!sup.begin_start());
    assert_eq!(sup.status_snapshot(), ProcessStatus::Running);

    sup.stop();
    assert_eq!(sup.status_snapshot(), ProcessStatus::Stopped);

    // Stop is safe from any state.
    sup.stop();
    assert_eq!(sup.status_snapshot(), ProcessStatus::Stopped);
}

#[test]
fn test_supervisor_send_input_before_start() {
    // Before any start the write path fails fast: not a byte is handed
    // to the shell.
    let sup = ProcessSupervisor::new();
    let result = sup.send_input_request("ls\r");
    assert!(matches!(result, Err(AgentError::NotRunning)));
}

#[test]
fn test_supervisor_send_input_running() {
    let mut sup = ProcessSupervisor::new();
    sup.begin_start();
    sup.on_start_outcome(StartOutcome::Spawned).unwrap();

    let data = sup.send_input_request("exact bytes \x1b[A").unwrap();
    assert_eq!(data, "exact bytes \x1b[A");

    assert!(ProcessSupervisor::write_outcome(None).is_ok());
    let r = ProcessSupervisor::write_outcome(Some("pipe closed".to_string()));
    assert!(matches!(r, Err(AgentError::WriteError(m)) if m == "pipe closed"));
}

#[test]
fn test_supervisor_resize_idempotent() {
    let mut sup = ProcessSupervisor::new();
    sup.begin_start();
    sup.on_start_outcome(StartOutcome::Spawned).unwrap();

    sup.resize(120, 40).unwrap();
    let once = (sup.cols, sup.rows);
    sup.resize(120, 40).unwrap();
    let twice = (sup.cols, sup.rows);
    assert_eq!(once, twice);
    assert_eq!(twice, (120, 40));
}

#[test]
fn test_supervisor_resize_not_running() {
    let mut sup = ProcessSupervisor::new();
    let result = sup.resize(120, 40);
    assert!(matches!(result, Err(AgentError::NotRunning)));
}

#[test]
fn test_supervisor_generation_discards_stale_chunks() {
    let mut sup = ProcessSupervisor::new();
    sup.begin_start();
    sup.on_start_outcome(StartOutcome::Spawned).unwrap();
    let generation = sup.generation;
    assert!(sup.chunk_deliverable(generation));

    sup.stop();
    assert!(!sup.chunk_deliverable(generation));

    sup.begin_start();
    sup.on_start_outcome(StartOutcome::Spawned).unwrap();
    // A chunk of the superseded session is recognized as stale.
    assert!(!sup.chunk_deliverable(generation));
    assert!(sup.chunk_deliverable(sup.generation));
}

#[test]
fn test_read_loop_step_data() {
    let step = read_loop_step(true, ReadOutcome::Data(b"hello".to_vec()));
    match step {
        LoopStep::Deliver(e) => {
            assert_eq!(e.data, "hello");
            assert!(!e.is_error);
        }
        _ => panic!("expected a delivery"),
    }
}

#[test]
fn test_read_loop_step_invalid_bytes_replaced() {
    let step = read_loop_step(true, ReadOutcome::Data(vec![0xff, 0xfe]));
    match step {
        LoopStep::Deliver(e) => {
            assert_eq!(e.data, "\u{fffd}\u{fffd}");
            assert!(!e.is_error);
        }
        _ => panic!("expected a delivery"),
    }
}

#[test]
fn test_read_loop_step_eof_and_error() {
    assert!(matches!(
        read_loop_step(true, ReadOutcome::Eof),
        LoopStep::Halt
    ));

    let step = read_loop_step(true, ReadOutcome::Failed("broken".to_string()));
    match step {
        LoopStep::DeliverAndHalt(e) => {
            assert_eq!(e.data, "Read error: broken");
            assert!(e.is_error);
        }
        _ => panic!("expected a final error delivery"),
    }
}

#[test]
fn test_read_loop_step_cancelled() {
    // Once the still-wanted flag is cleared the loop exits promptly,
    // even with data in hand.
    let step = read_loop_step(false, ReadOutcome::Data(b"late".to_vec()));
    assert!(matches!(step, LoopStep::Halt));
}
