//! The decoded device snapshot: every decoded field is a direct read of one
//! slot of the raw register array at a fixed, protocol-defined offset, and
//! the full raw array is retained for diagnostics.

use vstd::prelude::*;

use crate::constants::{
    REG_BAUD_RATE, REG_BAUD_RATE_LO, REG_BEEPER, REG_CALIBRATION_FACTOR, REG_COMM_ADDRESS,
    REG_C_FILTER_LIMIT, REG_C_FILTER_TOTAL, REG_FLAGS, REG_MODE, REG_M_FILTER_LIMIT,
    REG_M_FILTER_TOTAL, REG_P_FILTER_LIMIT, REG_P_FILTER_TOTAL, REG_REAL_FLOW, REG_SPEED_RPM,
    REG_STATE, REG_STATUS_FLAGS, REG_TARGET_FLOW, REG_THRESHOLD_A, REG_THRESHOLD_B,
    REG_TUBE_DIAMETER, STATUS_POLL_REG_COUNT,
};

verus! {

/// The register slot at offset `i`, or zero when `i` lies beyond the array.
pub open spec fn reg_or_zero(regs: Seq<u16>, i: int) -> u16 {
    if 0 <= i < regs.len() {
        regs[i]
    } else {
        0
    }
}

/// A decoded snapshot of device state, built once per successful poll.
#[derive(Debug, Clone)]
pub struct DeviceStatus {
    pub state: u16,
    pub target_flow: u16,
    pub real_flow: u16,
    pub speed_rpm: u16,
    pub p_filter_total: u16,
    pub m_filter_total: u16,
    pub c_filter_total: u16,
    pub p_filter_limit: u16,
    pub m_filter_limit: u16,
    pub c_filter_limit: u16,
    pub registers: Vec<u16>,
}

impl DeviceStatus {
    /// The snapshot invariant: the raw array covers the full polled block
    /// and every decoded field equals its slot at the defined offset.
    pub open spec fn wf(self) -> bool {
        &&& self.registers@.len() >= STATUS_POLL_REG_COUNT as int
        &&& self.state == self.registers@[REG_STATE as int]
        &&& self.target_flow == self.registers@[REG_TARGET_FLOW as int]
        &&& self.real_flow == self.registers@[REG_REAL_FLOW as int]
        &&& self.speed_rpm == self.registers@[REG_SPEED_RPM as int]
        &&& self.p_filter_total == self.registers@[REG_P_FILTER_TOTAL as int]
        &&& self.m_filter_total == self.registers@[REG_M_FILTER_TOTAL as int]
        &&& self.c_filter_total == self.registers@[REG_C_FILTER_TOTAL as int]
        &&& self.p_filter_limit == self.registers@[REG_P_FILTER_LIMIT as int]
        &&& self.m_filter_limit == self.registers@[REG_M_FILTER_LIMIT as int]
        &&& self.c_filter_limit == self.registers@[REG_C_FILTER_LIMIT as int]
    }

    /// Decodes a snapshot from a flat register array. Fails exactly when the
    /// array is shorter than the protocol-defined register count; otherwise
    /// each field is read from its fixed offset (zero if the offset were
    /// beyond the array) and the full array is retained unmodified.
    pub fn from_registers(registers: Vec<u16>) -> (r: Option<DeviceStatus>)
        ensures
            r is Some <==> registers@.len() >= STATUS_POLL_REG_COUNT as int,
            r matches Some(s) ==> {
                &&& s.wf()
                &&& s.registers@ == registers@
                &&& s.state == reg_or_zero(registers@, REG_STATE as int)
                &&& s.target_flow == reg_or_zero(registers@, REG_TARGET_FLOW as int)
                &&& s.real_flow == reg_or_zero(registers@, REG_REAL_FLOW as int)
                &&& s.speed_rpm == reg_or_zero(registers@, REG_SPEED_RPM as int)
                &&& s.p_filter_total == reg_or_zero(registers@, REG_P_FILTER_TOTAL as int)
                &&& s.m_filter_total == reg_or_zero(registers@, REG_M_FILTER_TOTAL as int)
                &&& s.c_filter_total == reg_or_zero(registers@, REG_C_FILTER_TOTAL as int)
                &&& s.p_filter_limit == reg_or_zero(registers@, REG_P_FILTER_LIMIT as int)
                &&& s.m_filter_limit == reg_or_zero(registers@, REG_M_FILTER_LIMIT as int)
                &&& s.c_filter_limit == reg_or_zero(registers@, REG_C_FILTER_LIMIT as int)
            },
    {
        if registers.len() < STATUS_POLL_REG_COUNT as usize {
            return None;
        }
        Some(DeviceStatus {
            state: read_reg(&registers, REG_STATE),
            target_flow: read_reg(&registers, REG_TARGET_FLOW),
            real_flow: read_reg(&registers, REG_REAL_FLOW),
            speed_rpm: read_reg(&registers, REG_SPEED_RPM),
            p_filter_total: read_reg(&registers, REG_P_FILTER_TOTAL),
            m_filter_total: read_reg(&registers, REG_M_FILTER_TOTAL),
            c_filter_total: read_reg(&registers, REG_C_FILTER_TOTAL),
            p_filter_limit: read_reg(&registers, REG_P_FILTER_LIMIT),
            m_filter_limit: read_reg(&registers, REG_M_FILTER_LIMIT),
            c_filter_limit: read_reg(&registers, REG_C_FILTER_LIMIT),
            registers,
        })
    }
}

/// Reads the register slot at `index`, defaulting to zero beyond the array.
fn read_reg(registers: &Vec<u16>, index: u16) -> (r: u16)
    ensures
        r == reg_or_zero(registers@, index as int),
{
    if (index as usize) < registers.len() {
        registers[index as usize]
    } else {
        0
    }
}

/// Whether a register offset has a diagnostic label.
pub open spec fn is_named_register(index: u16) -> bool {
    ||| index == REG_STATE
    ||| index == REG_TARGET_FLOW
    ||| index == REG_STATUS_FLAGS
    ||| index == REG_P_FILTER_TOTAL
    ||| index == REG_M_FILTER_TOTAL
    ||| index == REG_C_FILTER_TOTAL
    ||| index == REG_P_FILTER_LIMIT
    ||| index == REG_M_FILTER_LIMIT
    ||| index == REG_C_FILTER_LIMIT
    ||| index == REG_FLAGS
    ||| index == REG_COMM_ADDRESS
    ||| index == REG_BAUD_RATE_LO
    ||| index == REG_BAUD_RATE
    ||| index == REG_BEEPER
    ||| index == REG_SPEED_RPM
    ||| index == REG_TUBE_DIAMETER
    ||| index == REG_THRESHOLD_A
    ||| index == REG_THRESHOLD_B
    ||| index == REG_MODE
    ||| index == REG_CALIBRATION_FACTOR
    ||| index == REG_REAL_FLOW
}

/// A short human-readable label for a register offset, or none for an
/// unmapped offset. Used only by diagnostics, never by control flow.
pub fn register_name(index: u16) -> (r: Option<&'static str>)
    ensures
        r is Some <==> is_named_register(index),
{
    if index == REG_STATE {
        Some("State")
    } else if index == REG_TARGET_FLOW {
        Some("Target")
    } else if index == REG_STATUS_FLAGS {
        Some("Status")
    } else if index == REG_P_FILTER_TOTAL {
        Some("P-Total")
    } else if index == REG_M_FILTER_TOTAL {
        Some("M-Total")
    } else if index == REG_C_FILTER_TOTAL {
        Some("C-Total")
    } else if index == REG_P_FILTER_LIMIT {
        Some("P-Limit")
    } else if index == REG_M_FILTER_LIMIT {
        Some("M-Limit")
    } else if index == REG_C_FILTER_LIMIT {
        Some("C-Limit")
    } else if index == REG_FLAGS {
        Some("Flags")
    } else if index == REG_COMM_ADDRESS {
        Some("Address")
    } else if index == REG_BAUD_RATE_LO {
        Some("Baud-Lo")
    } else if index == REG_BAUD_RATE {
        Some("Baud-Hi")
    } else if index == REG_BEEPER {
        Some("Beeper")
    } else if index == REG_SPEED_RPM {
        Some("Speed")
    } else if index == REG_TUBE_DIAMETER {
        Some("Tube")
    } else if index == REG_THRESHOLD_A {
        Some("Thresh-A")
    } else if index == REG_THRESHOLD_B {
        Some("Thresh-B")
    } else if index == REG_MODE {
        Some("Mode")
    } else if index == REG_CALIBRATION_FACTOR {
        Some("Cal-Factor")
    } else if index == REG_REAL_FLOW {
        Some("Flow")
    } else {
        None
    }
}

} // verus!
