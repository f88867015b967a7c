//! Commands, events and configuration crossing the worker boundary, and the
//! worker's decision and step logic: one iteration of the control loop,
//! turning a received command (or a poll tick, or a severed channel) into
//! backend calls and emitted events.

use vstd::prelude::*;

use crate::backend::Backend;
use crate::constants::{TARGET_FLOW_MAX, TARGET_FLOW_MIN};
use crate::data::DeviceStatus;
use crate::errors::TransportError;
use crate::interface::InterfaceMode;
use crate::sim::{sim_command_state, sim_initial, tick_state, tick_status_matches, SimState};

verus! {

/// An operator intent, constructed by the input layer and consumed exactly
/// once by the worker.
#[derive(Debug, Clone, Copy, PartialEq, Eq, Structural)]
pub enum TransportCommand {
    SetPower(bool),
    SetTargetFlow(u16),
    Terminate,
}

/// What the worker emits on the event channel.
#[derive(Debug, Clone)]
pub enum TransportEvent {
    /// A freshly decoded snapshot from a successful poll.
    Status(DeviceStatus),
    /// The connection-health flag: true after a successful poll, false after
    /// any backend failure.
    Connection(bool),
    /// A fatal condition, reported once before the worker stops.
    Error(TransportError),
}

/// The immutable bundle read once at worker startup.
#[derive(Debug, Clone)]
pub struct TransportConfig {
    /// Serial device identifier; absent only when the simulator is selected.
    pub port: Option<String>,
    pub baud: u32,
    pub address: u8,
    /// How long the worker waits for a command before polling instead.
    pub poll_interval_ms: u64,
    /// When set, power and target-flow commands are silently dropped.
    pub read_only: bool,
    /// The wire-protocol variant, fixed for the process lifetime.
    pub interface: InterfaceMode,
}

/// A target-flow value forced into the protocol-defined bounds.
pub open spec fn clamped_flow(v: u16) -> u16 {
    if v < TARGET_FLOW_MIN {
        TARGET_FLOW_MIN
    } else if v > TARGET_FLOW_MAX {
        TARGET_FLOW_MAX
    } else {
        v
    }
}

/// Clamps a commanded target flow to the protocol-defined min/max; values
/// outside the range are silently clamped, not rejected.
pub fn clamp_target_flow(v: u16) -> (r: u16)
    ensures
        r == clamped_flow(v),
        TARGET_FLOW_MIN <= r <= TARGET_FLOW_MAX,
{
    if v < TARGET_FLOW_MIN {
        TARGET_FLOW_MIN
    } else if v > TARGET_FLOW_MAX {
        TARGET_FLOW_MAX
    } else {
        v
    }
}

/// What reached the worker in one iteration of its wait: a command, the
/// expiry of the poll interval, or a severed command channel.
#[derive(Debug, Clone, Copy, PartialEq, Eq, Structural)]
pub enum WorkerInput {
    Command(TransportCommand),
    Tick,
    Closed,
}

/// What the worker resolved to do with one input.
#[derive(Debug, Clone, Copy, PartialEq, Eq, Structural)]
pub enum WorkerAction {
    /// Perform exactly one status poll.
    Poll,
    /// Apply this command to the backend.
    Apply(TransportCommand),
    /// Drop the input without touching the backend (read-only mode).
    Ignore,
    /// Leave the loop normally.
    Terminate,
    /// Leave the loop reporting a fatal error.
    Fatal,
}

/// How the loop proceeds after a step.
#[derive(Debug, Clone, Copy, PartialEq, Eq, Structural)]
pub enum WorkerOutcome {
    Continue,
    Terminated,
    Failed,
}

/// Whether an input is a device-write command (power or target flow).
pub open spec fn is_write_input(input: WorkerInput) -> bool {
    ||| input matches WorkerInput::Command(TransportCommand::SetPower(_))
    ||| input matches WorkerInput::Command(TransportCommand::SetTargetFlow(_))
}

/// The worker's decision rule: a command arriving before the poll interval
/// expires is applied immediately (unless read-only mode drops it) and
/// suppresses that iteration's poll; an expired wait polls exactly once;
/// terminate and a severed channel leave the loop.
pub fn worker_decide(read_only: bool, input: WorkerInput) -> (action: WorkerAction)
    ensures
        input matches WorkerInput::Closed ==> action == WorkerAction::Fatal,
        input matches WorkerInput::Tick ==> action == WorkerAction::Poll,
        input == WorkerInput::Command(TransportCommand::Terminate) ==> action
            == WorkerAction::Terminate,
        is_write_input(input) && read_only ==> action == WorkerAction::Ignore,
        is_write_input(input) && !read_only ==> (input matches WorkerInput::Command(c) && action
            == WorkerAction::Apply(c)),
{
    match input {
        WorkerInput::Closed => WorkerAction::Fatal,
        WorkerInput::Tick => WorkerAction::Poll,
        WorkerInput::Command(TransportCommand::Terminate) => WorkerAction::Terminate,
        WorkerInput::Command(c) => {
            if read_only {
                WorkerAction::Ignore
            } else {
                WorkerAction::Apply(c)
            }
        },
    }
}

/// The events a finished poll produces: a successful poll emits the decoded
/// status followed by a connection-restored signal; any failure is absorbed
/// into a single connection-lost event.
pub fn events_after_poll(result: Result<DeviceStatus, TransportError>) -> (events: Vec<
    TransportEvent,
>)
    ensures
        result matches Ok(s) ==> events@.len() == 2 && events@[0] == TransportEvent::Status(s)
            && events@[1] == TransportEvent::Connection(true),
        result is Err ==> events@ =~= seq![TransportEvent::Connection(false)],
{
    let mut events: Vec<TransportEvent> = Vec::new();
    match result {
        Ok(status) => {
            events.push(TransportEvent::Status(status));
            events.push(TransportEvent::Connection(true));
        },
        Err(_) => {
            events.push(TransportEvent::Connection(false));
        },
    }
    events
}

/// The events a finished command application produces: success emits
/// nothing; any failure is absorbed into a single connection-lost event.
pub fn events_after_apply(result: Result<(), TransportError>) -> (events: Vec<TransportEvent>)
    ensures
        result is Ok ==> events@.len() == 0,
        result is Err ==> events@ =~= seq![TransportEvent::Connection(false)],
{
    let mut events: Vec<TransportEvent> = Vec::new();
    if result.is_err() {
        events.push(TransportEvent::Connection(false));
    }
    events
}

/// One iteration of the worker's control loop: decide what the input asks
/// for, drive the backend accordingly, and report the events to emit and
/// whether the loop goes on. Backend failures are absorbed into a single
/// connection-lost event; the worker never stops on a transient device
/// error, only on an explicit terminate or a severed command channel.
/// A dropped command, a terminate and a severed channel leave the backend
/// untouched: no write reaches the device and no poll is performed.
pub fn worker_step<B: Backend>(read_only: bool, backend: &mut B, input: WorkerInput) -> (r: (
    Vec<TransportEvent>,
    WorkerOutcome,
))
    ensures
        (read_only && is_write_input(input)) || input == WorkerInput::Command(
            TransportCommand::Terminate,
        ) || input is Closed ==> *final(backend) == *old(backend),
        input matches WorkerInput::Closed ==> r.1 == WorkerOutcome::Failed && r.0@ =~= seq![
            TransportEvent::Error(TransportError::ChannelClosed),
        ],
        input == WorkerInput::Command(TransportCommand::Terminate) ==> r.1
            == WorkerOutcome::Terminated && r.0@.len() == 0,
        read_only && is_write_input(input) ==> r.1 == WorkerOutcome::Continue && r.0@.len() == 0,
        !read_only && is_write_input(input) ==> r.1 == WorkerOutcome::Continue && (r.0@.len() == 0
            || r.0@ =~= seq![TransportEvent::Connection(false)]),
        input matches WorkerInput::Tick ==> r.1 == WorkerOutcome::Continue && (r.0@ =~= seq![
            TransportEvent::Connection(false),
        ] || (r.0@.len() == 2 && (exists|s: DeviceStatus|
            s.wf() && r.0@[0] == TransportEvent::Status(s)) && r.0@[1]
            == TransportEvent::Connection(true))),
{
    match worker_decide(read_only, input) {
        WorkerAction::Poll => {
            let result = backend.poll_status();
            let events = events_after_poll(result);
            (events, WorkerOutcome::Continue)
        },
        WorkerAction::Apply(command) => {
            let result = backend.apply_command(&command);
            let events = events_after_apply(result);
            (events, WorkerOutcome::Continue)
        },
        WorkerAction::Ignore => (Vec::new(), WorkerOutcome::Continue),
        WorkerAction::Terminate => (Vec::new(), WorkerOutcome::Terminated),
        WorkerAction::Fatal => {
            let mut events: Vec<TransportEvent> = Vec::new();
            events.push(TransportEvent::Error(TransportError::ChannelClosed));
            (events, WorkerOutcome::Failed)
        },
    }
}

/// One entry of the event stream the simulator loop owes: a snapshot from
/// ticking a given model state, a connection-restored signal, or the one
/// fatal report of a severed channel.
pub enum SimTraceEvent {
    Status(SimState),
    Restored,
    Fatal,
}

/// The exact event stream the simulator loop owes for an input stream,
/// starting from model state `s`: each uninterrupted tick contributes a
/// snapshot of the current state followed by a restored signal and advances
/// the state one tick; an applied command advances the state silently; a
/// dropped command (read-only mode) leaves it untouched; a terminate stops
/// the stream; a severed channel ends it with the fatal report.
pub open spec fn sim_trace(read_only: bool, inputs: Seq<WorkerInput>, s: SimState) -> Seq<
    SimTraceEvent,
>
    decreases inputs.len(),
{
    if inputs.len() == 0 {
        Seq::empty()
    } else if inputs[0] is Closed {
        seq![SimTraceEvent::Fatal]
    } else if inputs[0] == WorkerInput::Command(TransportCommand::Terminate) {
        Seq::empty()
    } else if inputs[0] is Tick {
        seq![SimTraceEvent::Status(s), SimTraceEvent::Restored] + sim_trace(
            read_only,
            inputs.drop_first(),
            tick_state(s),
        )
    } else {
        match inputs[0] {
            WorkerInput::Command(c) => sim_trace(
                read_only,
                inputs.drop_first(),
                if read_only {
                    s
                } else {
                    sim_command_state(s, c)
                },
            ),
            _ => Seq::empty(),
        }
    }
}

/// Whether an emitted event realises one owed trace entry.
pub open spec fn sim_event_matches(e: TransportEvent, d: SimTraceEvent) -> bool {
    match d {
        SimTraceEvent::Status(s) => (e matches TransportEvent::Status(st)
            && tick_status_matches(s, st)),
        SimTraceEvent::Restored => e == TransportEvent::Connection(true),
        SimTraceEvent::Fatal => e == TransportEvent::Error(TransportError::ChannelClosed),
    }
}

/// Drives a fresh simulator through a finite stream of worker inputs,
/// collecting every event the worker would emit, and stopping early on a
/// terminate command or a severed channel. The emitted events realise the
/// owed trace entry for entry; in particular no event is an error unless
/// the stream severs the channel, and every snapshot is well-formed.
pub fn run_sim_loop(config: &TransportConfig, inputs: &Vec<WorkerInput>) -> (events: Vec<
    TransportEvent,
>)
    ensures
        events@.len() == sim_trace(config.read_only, inputs@, sim_initial()).len(),
        forall|i: int|
            0 <= i < events@.len() ==> sim_event_matches(
                events@[i],
                sim_trace(config.read_only, inputs@, sim_initial())[i],
            ),
        (forall|j: int| 0 <= j < inputs@.len() ==> !(inputs@[j] is Closed)) ==> forall|i: int|
            0 <= i < events@.len() ==> !(events@[i] is Error),
        forall|i: int|
            #![trigger events@[i]]
            0 <= i < events@.len() ==> (events@[i] matches TransportEvent::Status(s) ==> s.wf()),
{
    let ghost full = sim_trace(config.read_only, inputs@, sim_initial());
    let mut sim = SimState::new();
    let mut events: Vec<TransportEvent> = Vec::new();
    let mut k: usize = 0;
    proof {
        assert(inputs@.skip(0) =~= inputs@);
        assert(full.skip(0) =~= full);
    }
    while k < inputs.len()
        invariant
            k <= inputs@.len(),
            full == sim_trace(config.read_only, inputs@, sim_initial()),
            sim_trace(config.read_only, inputs@.skip(k as int), sim) == full.skip(
                events@.len() as int,
            ),
            events@.len() <= full.len(),
            forall|i: int| 0 <= i < events@.len() ==> sim_event_matches(events@[i], full[i]),
            (forall|j: int| 0 <= j < inputs@.len() ==> !(inputs@[j] is Closed)) ==> forall|i: int|
                0 <= i < events@.len() ==> !(events@[i] is Error),
            forall|i: int|
                #![trigger events@[i]]
                0 <= i < events@.len() ==> (events@[i] matches TransportEvent::Status(s)
                    ==> s.wf()),
        decreases inputs@.len() - k,
    {
        let input = inputs[k];
        let ghost suffix = sim_trace(config.read_only, inputs@.skip(k as int), sim);
        proof {
            assert(inputs@.skip(k as int)[0] == inputs@[k as int]);
            assert(inputs@.skip(k as int).drop_first() =~= inputs@.skip(k as int + 1));
        }
        match worker_decide(config.read_only, input) {
            WorkerAction::Poll => {
                let ghost before = sim;
                let status = sim.tick();
                proof {
                    assert(input is Tick);
                    assert(inputs@.skip(k as int).len() == inputs@.len() - k);
                    assert(suffix == seq![
                        SimTraceEvent::Status(before),
                        SimTraceEvent::Restored,
                    ] + sim_trace(config.read_only, inputs@.skip(k as int + 1), tick_state(before)));
                    assert(suffix[0] == SimTraceEvent::Status(before));
                    assert(suffix[1] == SimTraceEvent::Restored);
                    assert(full[events@.len() as int] == full.skip(events@.len() as int)[0]);
                    assert(full[events@.len() as int + 1] == full.skip(events@.len() as int)[1]);
                    assert forall|i: int|
                        #![trigger full.skip(events@.len() as int + 2)[i]]
                        0 <= i < full.len() - events@.len() - 2 implies full.skip(
                        events@.len() as int + 2,
                    )[i] == sim_trace(
                        config.read_only,
                        inputs@.skip(k as int + 1),
                        tick_state(before),
                    )[i] by {
                        assert(full.skip(events@.len() as int + 2)[i] == full[events@.len() as int
                            + 2 + i]);
                        assert(full[events@.len() as int + 2 + i] == full.skip(
                            events@.len() as int,
                        )[2 + i]);
                    }
                    assert(full.skip(events@.len() as int + 2) =~= sim_trace(
                        config.read_only,
                        inputs@.skip(k as int + 1),
                        tick_state(before),
                    ));
                }
                events.push(TransportEvent::Status(status));
                events.push(TransportEvent::Connection(true));
            },
            WorkerAction::Apply(command) => {
                match command {
                    TransportCommand::SetPower(on) => sim.set_power(on),
                    TransportCommand::SetTargetFlow(flow) => sim.set_target_flow(flow),
                    TransportCommand::Terminate => {
                        // worker_decide never asks to apply a terminate.
                        proof {
                            assert(false);
                        }
                    },
                }
            },
            WorkerAction::Ignore => {},
            WorkerAction::Terminate => {
                proof {
                    assert(suffix =~= Seq::<SimTraceEvent>::empty());
                    assert(full.len() == events@.len());
                }
                return events;
            },
            WorkerAction::Fatal => {
                proof {
                    assert(input is Closed);
                    assert(inputs@.skip(k as int).len() == inputs@.len() - k);
                    assert(suffix == seq![SimTraceEvent::Fatal]);
                    assert(suffix.len() == 1);
                    assert(full.skip(events@.len() as int) == suffix);
                    assert(full.skip(events@.len() as int).len() == full.len() - events@.len());
                    assert(full.len() == events@.len() + 1);
                    assert(full[events@.len() as int] == full.skip(events@.len() as int)[0]);
                    assert(inputs@[k as int] is Closed);
                }
                events.push(TransportEvent::Error(TransportError::ChannelClosed));
                return events;
            },
        }
        k = k + 1;
    }
    proof {
        assert(inputs@.skip(inputs@.len() as int) =~= Seq::<WorkerInput>::empty());
        assert(full.skip(events@.len() as int) =~= Seq::<SimTraceEvent>::empty());
        assert(full.len() == events@.len());
    }
    events
}

} // verus!
