use flowmon::backend::{build_backend, AnyBackend, Backend};
use flowmon::constants::{STATE_ON, TARGET_FLOW_MAX, TARGET_FLOW_MIN};
use flowmon::data::DeviceStatus;
use flowmon::errors::TransportError;
use flowmon::exttool::{ExtToolBackend, CMD_WRITE_COMMAND, IDX_TARGET_FLOW};
use flowmon::interface::InterfaceMode;
use flowmon::remote::RemoteBackend;
use flowmon::rtu::{append_crc, SerialLink};
use flowmon::sim::SimBackend;
use flowmon::transport::{
    run_sim_loop, worker_step, TransportCommand, TransportConfig, TransportEvent, WorkerInput,
    WorkerOutcome,
};

fn sim_config(read_only: bool) -> TransportConfig {
    TransportConfig {
        port: None,
        baud: 19_200,
        address: 2,
        poll_interval_ms: 500,
        read_only,
        interface: InterfaceMode::Simulation,
    }
}

/// A backend whose polls fail on demand and which counts applied commands.
struct ScriptBackend {
    fail_polls_left: u32,
    applied: u32,
}

impl Backend for ScriptBackend {
    fn poll_status(&mut self) -> Result<DeviceStatus, TransportError> {
        if self.fail_polls_left > 0 {
            self.fail_polls_left -= 1;
            return Err(TransportError::ReadTimeout);
        }
        Ok(DeviceStatus::from_registers(vec![0u16; 24]).expect("status should build"))
    }

    fn apply_command(&mut self, _command: &TransportCommand) -> Result<(), TransportError> {
        self.applied += 1;
        Ok(())
    }
}

#[test]
fn read_only_mode_drops_write_commands() {
    let mut backend = ScriptBackend { fail_polls_left: 0, applied: 0 };

    let (events, outcome) = worker_step(
        true,
        &mut backend,
        WorkerInput::Command(TransportCommand::SetPower(true)),
    );
    assert!(events.is_empty());
    assert_eq!(outcome, WorkerOutcome::Continue);

    let (events, outcome) = worker_step(
        true,
        &mut backend,
        WorkerInput::Command(TransportCommand::SetTargetFlow(50)),
    );
    assert!(events.is_empty());
    assert_eq!(outcome, WorkerOutcome::Continue);

    assert_eq!(backend.applied, 0, "read-only mode must not reach the backend");
}

#[test]
fn single_poll_failure_is_isolated() {
    let mut backend = ScriptBackend { fail_polls_left: 1, applied: 0 };

    let (events, outcome) = worker_step(false, &mut backend, WorkerInput::Tick);
    assert_eq!(outcome, WorkerOutcome::Continue, "a poll failure must not stop the worker");
    assert_eq!(events.len(), 1, "exactly one connection-lost event");
    assert!(matches!(events[0], TransportEvent::Connection(false)));

    let (events, outcome) = worker_step(false, &mut backend, WorkerInput::Tick);
    assert_eq!(outcome, WorkerOutcome::Continue);
    assert_eq!(events.len(), 2);
    assert!(matches!(events[0], TransportEvent::Status(_)));
    assert!(matches!(events[1], TransportEvent::Connection(true)));
}

#[test]
fn terminate_stops_the_worker_quietly() {
    let mut backend = ScriptBackend { fail_polls_left: 0, applied: 0 };
    let (events, outcome) = worker_step(
        false,
        &mut backend,
        WorkerInput::Command(TransportCommand::Terminate),
    );
    assert!(events.is_empty());
    assert_eq!(outcome, WorkerOutcome::Terminated);
}

#[test]
fn severed_channel_is_reported_once_as_fatal() {
    let mut backend = ScriptBackend { fail_polls_left: 0, applied: 0 };
    let (events, outcome) = worker_step(false, &mut backend, WorkerInput::Closed);
    assert_eq!(outcome, WorkerOutcome::Failed);
    assert_eq!(events.len(), 1);
    assert!(matches!(
        events[0],
        TransportEvent::Error(TransportError::ChannelClosed)
    ));
}

#[test]
fn sim_loop_emits_status_and_stops_on_terminate() {
    let inputs = vec![
        WorkerInput::Command(TransportCommand::SetPower(true)),
        WorkerInput::Command(TransportCommand::SetTargetFlow(70)),
        WorkerInput::Tick,
        WorkerInput::Command(TransportCommand::Terminate),
        WorkerInput::Tick,
    ];
    let events = run_sim_loop(&sim_config(false), &inputs);
    assert_eq!(events.len(), 2, "one poll before terminate, nothing after");
    match &events[0] {
        TransportEvent::Status(status) => {
            assert_eq!(status.state, STATE_ON);
            assert_eq!(status.target_flow, 70);
        }
        other => panic!("expected a status event, got {other:?}"),
    }
    assert!(matches!(events[1], TransportEvent::Connection(true)));
}

#[test]
fn sim_loop_in_read_only_mode_ignores_writes() {
    let inputs = vec![
        WorkerInput::Command(TransportCommand::SetPower(true)),
        WorkerInput::Command(TransportCommand::SetTargetFlow(70)),
        WorkerInput::Tick,
    ];
    let events = run_sim_loop(&sim_config(true), &inputs);
    assert_eq!(events.len(), 2);
    match &events[0] {
        TransportEvent::Status(status) => {
            assert_eq!(status.state, 0, "power command must have been dropped");
            assert_eq!(status.target_flow, 0, "flow command must have been dropped");
        }
        other => panic!("expected a status event, got {other:?}"),
    }
}

#[test]
fn simulator_reflects_clamped_target_flow_in_status() {
    let mut backend = SimBackend::new();
    backend
        .apply_command(&TransportCommand::SetPower(true))
        .expect("sim apply should succeed");
    backend
        .apply_command(&TransportCommand::SetTargetFlow(999))
        .expect("sim apply should succeed");

    let mut last = None;
    for _ in 0..200 {
        last = Some(backend.poll_status().expect("sim poll should succeed"));
    }
    let status = last.expect("at least one poll");
    assert_eq!(status.target_flow, TARGET_FLOW_MAX, "commanded value must be clamped");
    assert_eq!(status.real_flow, TARGET_FLOW_MAX, "flow must settle at the clamped bound");

    backend
        .apply_command(&TransportCommand::SetTargetFlow(1))
        .expect("sim apply should succeed");
    let status = backend.poll_status().expect("sim poll should succeed");
    assert_eq!(status.target_flow, TARGET_FLOW_MIN);
}

/// A link that records what was transmitted and replies from a script.
struct RecordingLink {
    sent: std::rc::Rc<std::cell::RefCell<Vec<Vec<u8>>>>,
    reply: Vec<u8>,
    pos: usize,
}

impl SerialLink for RecordingLink {
    fn write_frame(&mut self, frame: &[u8]) -> Result<(), TransportError> {
        self.sent.borrow_mut().push(frame.to_vec());
        Ok(())
    }

    fn read_some(&mut self, max: usize) -> Result<Vec<u8>, TransportError> {
        let available = self.reply.len() - self.pos;
        let take = available.min(max);
        let chunk = self.reply[self.pos..self.pos + take].to_vec();
        self.pos += take;
        Ok(chunk)
    }

    fn now_ms(&mut self) -> u64 {
        0
    }
}

#[test]
fn exttool_transmits_clamped_target_flow() {
    let sent = std::rc::Rc::new(std::cell::RefCell::new(Vec::new()));
    let reply = append_crc(&[0x01, CMD_WRITE_COMMAND, IDX_TARGET_FLOW, 0x02]);
    let link = RecordingLink { sent: sent.clone(), reply, pos: 0 };
    let mut backend = ExtToolBackend::new(link, 0x01);

    backend
        .apply_command(&TransportCommand::SetTargetFlow(999))
        .expect("write should succeed");

    let mut body = vec![0x01, CMD_WRITE_COMMAND, IDX_TARGET_FLOW, 0x02];
    body.extend_from_slice(&TARGET_FLOW_MAX.to_be_bytes());
    let expected_request = append_crc(&body);

    let frames = sent.borrow();
    assert_eq!(frames.len(), 1, "exactly one request frame");
    assert_eq!(frames[0], expected_request, "the clamped bound must be transmitted");
}

#[test]
fn simulator_snapshot_has_device_response_shape() {
    let mut backend = SimBackend::new();
    let status = backend.poll_status().expect("sim poll should succeed");
    assert_eq!(status.registers.len(), 24);
    assert_eq!(status.registers[0], 0, "state register, device off");
    assert_eq!(status.registers[6], 200);
    assert_eq!(status.registers[7], 1200);
    assert_eq!(status.registers[8], 2400);
    for unmapped in [2usize, 3, 4, 5, 9, 10, 11, 12, 13, 15, 16, 17, 18, 19, 21, 22, 23] {
        assert_eq!(status.registers[unmapped], 0, "slot {unmapped} must read zero");
    }
}

#[test]
fn remote_backend_has_no_terminate_write() {
    let sent = std::rc::Rc::new(std::cell::RefCell::new(Vec::new()));
    let link = RecordingLink { sent: sent.clone(), reply: Vec::new(), pos: 0 };
    let mut backend = RemoteBackend::new(link, 0x02);
    let err = backend
        .apply_command(&TransportCommand::Terminate)
        .expect_err("terminate has no wire encoding");
    assert_eq!(err, TransportError::UnsupportedCommand);
    assert!(sent.borrow().is_empty(), "nothing may be transmitted");
}

#[test]
fn write_failures_surface_as_connection_loss() {
    struct DeadLink;

    impl SerialLink for DeadLink {
        fn write_frame(&mut self, _frame: &[u8]) -> Result<(), TransportError> {
            Err(TransportError::WriteFailed)
        }

        fn read_some(&mut self, _max: usize) -> Result<Vec<u8>, TransportError> {
            Ok(Vec::new())
        }

        fn now_ms(&mut self) -> u64 {
            0
        }
    }

    let mut backend = RemoteBackend::new(DeadLink, 0x02);
    let (events, outcome) = worker_step(
        false,
        &mut backend,
        WorkerInput::Command(TransportCommand::SetPower(true)),
    );
    assert_eq!(outcome, WorkerOutcome::Continue);
    assert_eq!(events.len(), 1);
    assert!(matches!(events[0], TransportEvent::Connection(false)));
}

#[test]
fn selector_builds_the_configured_backend() {
    let config = sim_config(false);
    let backend = build_backend::<RecordingLink>(&config, None, true).expect("selector should build");
    assert!(matches!(backend, AnyBackend::Simulation(_)));

    match build_backend::<RecordingLink>(&config, None, false) {
        Err(err) => assert_eq!(err, TransportError::SimulationUnavailable),
        Ok(_) => panic!("disabled simulator should fail"),
    }

    let mut serial = sim_config(false);
    serial.interface = InterfaceMode::Remote;
    match build_backend::<RecordingLink>(&serial, None, true) {
        Err(err) => assert_eq!(err, TransportError::PortRequired),
        Ok(_) => panic!("port should be required"),
    }
}
