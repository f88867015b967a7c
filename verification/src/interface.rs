//! The wire-protocol variant selected once at startup, and the default
//! serial parameters each variant was shipped with.

use vstd::prelude::*;

verus! {

/// Which backend the worker drives: the generic register protocol, the
/// vendor-specific indexed protocol, or the in-process simulator.
#[derive(Debug, Clone, Copy, PartialEq, Eq, Structural)]
pub enum InterfaceMode {
    Remote,
    Exttool,
    Simulation,
}

impl InterfaceMode {
    /// The default baud rate for this interface.
    pub fn default_baud(self) -> (r: u32)
        ensures
            self == InterfaceMode::Exttool ==> r == 38400,
            self != InterfaceMode::Exttool ==> r == 19200,
    {
        match self {
            InterfaceMode::Remote | InterfaceMode::Simulation => 19200,
            InterfaceMode::Exttool => 38400,
        }
    }

    /// The default protocol device address for this interface.
    pub fn default_address(self) -> (r: u8)
        ensures
            self == InterfaceMode::Exttool ==> r == 1,
            self != InterfaceMode::Exttool ==> r == 2,
    {
        match self {
            InterfaceMode::Remote | InterfaceMode::Simulation => 2,
            InterfaceMode::Exttool => 1,
        }
    }
}

} // verus!
