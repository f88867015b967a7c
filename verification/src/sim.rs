//! The in-process device simulator: a self-contained numeric model of the
//! device's physical behaviour, implementing the same backend contract as
//! the real wire protocols so the worker and display can run with no
//! hardware attached.
//!
//! Flow is kept in thousandths of a flow unit. When enabled, the measured
//! flow moves one fifth of the remaining distance toward the target each
//! tick; when disabled it decays to three fifths of its value. Speed is a
//! fixed linear function of flow (120 rpm per flow unit) when enabled and
//! zero otherwise.

use vstd::prelude::*;

use crate::constants::{
    REG_C_FILTER_LIMIT, REG_M_FILTER_LIMIT, REG_P_FILTER_LIMIT, REG_REAL_FLOW, REG_SPEED_RPM,
    REG_STATE, REG_TARGET_FLOW, STATE_OFF, STATE_ON, STATUS_POLL_REG_COUNT, TARGET_FLOW_MAX,
};
use crate::backend::Backend;
use crate::data::DeviceStatus;
use crate::errors::TransportError;
use crate::transport::{clamp_target_flow, clamped_flow, TransportCommand};

verus! {

/// Flow ceiling in milli-units: the protocol's maximum target flow.
pub const FLOW_MILLI_MAX: u32 = 100_000;

/// The simulator's internal continuous state.
pub struct SimState {
    /// The operating-state flag, as a device register value.
    pub state: u16,
    /// The commanded setpoint, clamped to the protocol bounds.
    pub target_flow: u16,
    /// Measured flow in thousandths of a flow unit.
    pub flow_milli: u32,
    pub p_filter_limit: u16,
    pub m_filter_limit: u16,
    pub c_filter_limit: u16,
}

/// The measured flow after one tick: one fifth of the distance toward the
/// target when enabled, a decay to three fifths when disabled, clamped to
/// the valid flow range.
pub open spec fn next_flow_milli(state: u16, target_flow: u16, flow_milli: int) -> int {
    let stepped = if state == STATE_ON {
        let target = (target_flow as int) * 1000;
        if target >= flow_milli {
            flow_milli + (target - flow_milli) / 5
        } else {
            flow_milli - (flow_milli - target) / 5
        }
    } else {
        (flow_milli / 5) * 3
    };
    if stepped > FLOW_MILLI_MAX as int {
        FLOW_MILLI_MAX as int
    } else {
        stepped
    }
}

/// Flow in milli-units rounded to the nearest whole flow unit.
pub open spec fn flow_units(flow_milli: int) -> int {
    (flow_milli + 500) / 1000
}

/// The rotational speed reported for a flow: 120 rpm per flow unit when
/// enabled, zero otherwise.
pub open spec fn speed_for(state: u16, flow_milli: int) -> int {
    if state == STATE_ON {
        flow_milli * 120 / 1000
    } else {
        0
    }
}

/// The simulator's starting state: switched off, no flow, default limits.
pub open spec fn sim_initial() -> SimState {
    SimState {
        state: STATE_OFF,
        target_flow: 0,
        flow_milli: 0,
        p_filter_limit: 200,
        m_filter_limit: 1200,
        c_filter_limit: 2400,
    }
}

/// The model after a power command: only the operating state changes.
pub open spec fn power_state(s: SimState, on: bool) -> SimState {
    SimState {
        state: if on {
            STATE_ON
        } else {
            STATE_OFF
        },
        target_flow: s.target_flow,
        flow_milli: s.flow_milli,
        p_filter_limit: s.p_filter_limit,
        m_filter_limit: s.m_filter_limit,
        c_filter_limit: s.c_filter_limit,
    }
}

/// The model after a target-flow command: only the clamped setpoint changes.
pub open spec fn target_state(s: SimState, flow: u16) -> SimState {
    SimState {
        state: s.state,
        target_flow: clamped_flow(flow),
        flow_milli: s.flow_milli,
        p_filter_limit: s.p_filter_limit,
        m_filter_limit: s.m_filter_limit,
        c_filter_limit: s.c_filter_limit,
    }
}

/// The model after one tick: only the measured flow advances.
pub open spec fn tick_state(s: SimState) -> SimState {
    SimState {
        state: s.state,
        target_flow: s.target_flow,
        flow_milli: next_flow_milli(s.state, s.target_flow, s.flow_milli as int) as u32,
        p_filter_limit: s.p_filter_limit,
        m_filter_limit: s.m_filter_limit,
        c_filter_limit: s.c_filter_limit,
    }
}

/// The model after one operator command: power and target flow update it,
/// terminate leaves it untouched.
pub open spec fn sim_command_state(s: SimState, command: TransportCommand) -> SimState {
    match command {
        TransportCommand::SetPower(on) => power_state(s, on),
        TransportCommand::SetTargetFlow(flow) => target_state(s, flow),
        TransportCommand::Terminate => s,
    }
}

/// The raw-array slots a simulator tick fills; every other slot reads zero.
pub open spec fn sim_filled_slot(i: int) -> bool {
    ||| i == REG_STATE as int
    ||| i == REG_TARGET_FLOW as int
    ||| i == REG_P_FILTER_LIMIT as int
    ||| i == REG_M_FILTER_LIMIT as int
    ||| i == REG_C_FILTER_LIMIT as int
    ||| i == REG_SPEED_RPM as int
    ||| i == REG_REAL_FLOW as int
}

/// What a snapshot produced by ticking the model `s` looks like: the state
/// and setpoint echoed, the advanced flow rounded to whole units, the speed
/// derived from it, zero filter totals, the limits carried over, and a raw
/// array of the full polled length with zeros in every unfilled slot.
pub open spec fn tick_status_matches(s: SimState, st: DeviceStatus) -> bool {
    &&& st.wf()
    &&& st.state == s.state
    &&& st.target_flow == s.target_flow
    &&& st.real_flow == flow_units(tick_state(s).flow_milli as int)
    &&& st.speed_rpm == speed_for(s.state, tick_state(s).flow_milli as int)
    &&& st.p_filter_total == 0
    &&& st.m_filter_total == 0
    &&& st.c_filter_total == 0
    &&& st.p_filter_limit == s.p_filter_limit
    &&& st.m_filter_limit == s.m_filter_limit
    &&& st.c_filter_limit == s.c_filter_limit
    &&& st.registers@.len() == STATUS_POLL_REG_COUNT as int
    &&& forall|i: int|
        0 <= i < STATUS_POLL_REG_COUNT as int && !sim_filled_slot(i) ==> st.registers@[i] == 0
}

impl SimState {
    /// A fresh simulator: switched off, no flow, default filter limits.
    pub fn new() -> (r: SimState)
        ensures
            r == sim_initial(),
    {
        SimState {
            state: STATE_OFF,
            target_flow: 0,
            flow_milli: 0,
            p_filter_limit: 200,
            m_filter_limit: 1200,
            c_filter_limit: 2400,
        }
    }

    /// Switches the simulated device on or off.
    pub fn set_power(&mut self, on: bool)
        ensures
            *final(self) == power_state(*old(self), on),
    {
        self.state = if on {
            STATE_ON
        } else {
            STATE_OFF
        };
    }

    /// Sets the target flow, clamped to the protocol bounds.
    pub fn set_target_flow(&mut self, flow: u16)
        ensures
            *final(self) == target_state(*old(self), flow),
    {
        self.target_flow = clamp_target_flow(flow);
    }

    /// Advances the model one tick and produces a snapshot with the same
    /// shape as a real device response.
    pub fn tick(&mut self) -> (r: DeviceStatus)
        ensures
            *final(self) == tick_state(*old(self)),
            tick_status_matches(*old(self), r),
    {
        if self.state == STATE_ON {
            let target: u32 = (self.target_flow as u32) * 1000;
            if target >= self.flow_milli {
                let delta = (target - self.flow_milli) / 5;
                proof {
                    assert(delta <= target - self.flow_milli);
                }
                self.flow_milli = self.flow_milli + delta;
            } else {
                self.flow_milli = self.flow_milli - (self.flow_milli - target) / 5;
            }
        } else {
            self.flow_milli = (self.flow_milli / 5) * 3;
        }
        if self.flow_milli > FLOW_MILLI_MAX {
            self.flow_milli = FLOW_MILLI_MAX;
        }
        proof {
            assert(*self == tick_state(*old(self)));
        }

        let real_flow = ((self.flow_milli + 500) / 1000) as u16;
        let speed_rpm = if self.state == STATE_ON {
            (self.flow_milli * 120 / 1000) as u16
        } else {
            0u16
        };

        let mut registers: Vec<u16> = Vec::new();
        registers.push(self.state);
        registers.push(self.target_flow);
        registers.push(0);
        registers.push(0);
        registers.push(0);
        registers.push(0);
        registers.push(self.p_filter_limit);
        registers.push(self.m_filter_limit);
        registers.push(self.c_filter_limit);
        registers.push(0);
        registers.push(0);
        registers.push(0);
        registers.push(0);
        registers.push(0);
        registers.push(speed_rpm);
        registers.push(0);
        registers.push(0);
        registers.push(0);
        registers.push(0);
        registers.push(0);
        registers.push(real_flow);
        registers.push(0);
        registers.push(0);
        registers.push(0);

        proof {
            let ghost lit = seq![
                self.state,
                self.target_flow,
                0u16,
                0u16,
                0u16,
                0u16,
                self.p_filter_limit,
                self.m_filter_limit,
                self.c_filter_limit,
                0u16,
                0u16,
                0u16,
                0u16,
                0u16,
                speed_rpm,
                0u16,
                0u16,
                0u16,
                0u16,
                0u16,
                real_flow,
                0u16,
                0u16,
                0u16,
            ];
            assert(registers@ =~= lit);
            assert forall|i: int|
                0 <= i < STATUS_POLL_REG_COUNT as int && !sim_filled_slot(i) implies lit[i]
                == 0 by {}
        }

        DeviceStatus {
            state: self.state,
            target_flow: self.target_flow,
            real_flow,
            speed_rpm,
            p_filter_total: 0,
            m_filter_total: 0,
            c_filter_total: 0,
            p_filter_limit: self.p_filter_limit,
            m_filter_limit: self.m_filter_limit,
            c_filter_limit: self.c_filter_limit,
            registers,
        }
    }
}

/// The simulator wrapped as a backend; its operations never fail.
pub struct SimBackend {
    sim: SimState,
}

impl SimBackend {
    /// The simulator state this backend carries.
    pub closed spec fn model(self) -> SimState {
        self.sim
    }

    /// A backend around a fresh simulator.
    pub fn new() -> (r: SimBackend)
        ensures
            r.model() == sim_initial(),
    {
        SimBackend { sim: SimState::new() }
    }
}

impl Backend for SimBackend {
    fn poll_status(&mut self) -> (r: Result<DeviceStatus, TransportError>)
        ensures
            r is Ok,
            final(self).model() == tick_state(old(self).model()),
            r matches Ok(s) ==> tick_status_matches(old(self).model(), s),
    {
        Ok(self.sim.tick())
    }

    fn apply_command(&mut self, command: &TransportCommand) -> (r: Result<(), TransportError>)
        ensures
            r is Ok,
            final(self).model() == sim_command_state(old(self).model(), *command),
    {
        match command {
            TransportCommand::SetPower(on) => self.sim.set_power(*on),
            TransportCommand::SetTargetFlow(flow) => self.sim.set_target_flow(*flow),
            TransportCommand::Terminate => {},
        }
        Ok(())
    }
}

} // verus!
