//! The backend contract every wire-protocol variant implements, and the
//! selector that constructs exactly one concrete backend at startup.

use vstd::prelude::*;

use crate::data::DeviceStatus;
use crate::errors::TransportError;
use crate::exttool::ExtToolBackend;
use crate::interface::InterfaceMode;
use crate::remote::RemoteBackend;
use crate::rtu::SerialLink;
use crate::sim::{sim_command_state, sim_initial, tick_state, tick_status_matches, SimBackend};
use crate::transport::{TransportCommand, TransportConfig};

verus! {

/// The abstract operations the worker drives: read the device's status
/// block, or apply one operator command. Every successful poll yields a
/// well-formed snapshot.
pub trait Backend {
    /// Performs one status poll against the device.
    fn poll_status(&mut self) -> (r: Result<DeviceStatus, TransportError>)
        ensures
            r matches Ok(s) ==> s.wf(),
    ;

    /// Applies one operator command to the device.
    fn apply_command(&mut self, command: &TransportCommand) -> (r: Result<(), TransportError>);
}

/// The one concrete backend a worker owns, chosen at startup and uniform
/// thereafter.
pub enum AnyBackend<L: SerialLink> {
    Remote(RemoteBackend<L>),
    Exttool(ExtToolBackend<L>),
    Simulation(SimBackend),
}

impl<L: SerialLink> Backend for AnyBackend<L> {
    fn poll_status(&mut self) -> (r: Result<DeviceStatus, TransportError>)
        ensures
            *old(self) matches AnyBackend::Simulation(b) ==> ({
                &&& r is Ok
                &&& (*final(self) matches AnyBackend::Simulation(b2) && b2.model() == tick_state(
                    b.model(),
                ))
                &&& (r matches Ok(s) ==> tick_status_matches(b.model(), s))
            }),
    {
        match self {
            AnyBackend::Remote(backend) => backend.poll_status(),
            AnyBackend::Exttool(backend) => backend.poll_status(),
            AnyBackend::Simulation(backend) => backend.poll_status(),
        }
    }

    fn apply_command(&mut self, command: &TransportCommand) -> (r: Result<(), TransportError>)
        ensures
            *old(self) matches AnyBackend::Simulation(b) ==> ({
                &&& r is Ok
                &&& (*final(self) matches AnyBackend::Simulation(b2) && b2.model()
                    == sim_command_state(b.model(), *command))
            }),
    {
        match self {
            AnyBackend::Remote(backend) => backend.apply_command(command),
            AnyBackend::Exttool(backend) => backend.apply_command(command),
            AnyBackend::Simulation(backend) => backend.apply_command(command),
        }
    }
}

/// Constructs exactly one concrete backend for the configured interface,
/// bound to the opened serial link and the protocol device address. Fails
/// before the worker starts when a serial link is required by the selected
/// protocol but absent, or when the simulator is requested but disabled.
pub fn build_backend<L: SerialLink>(
    config: &TransportConfig,
    link: Option<L>,
    simulation_enabled: bool,
) -> (r: Result<AnyBackend<L>, TransportError>)
    ensures
        r is Ok <==> (if config.interface == InterfaceMode::Simulation {
            simulation_enabled
        } else {
            link is Some
        }),
        config.interface != InterfaceMode::Simulation && link is None ==> (r matches Err(e) && e
            == TransportError::PortRequired),
        config.interface == InterfaceMode::Simulation && !simulation_enabled ==> (r matches Err(e)
            && e == TransportError::SimulationUnavailable),
        r matches Ok(b) ==> match b {
            AnyBackend::Remote(_) => config.interface == InterfaceMode::Remote,
            AnyBackend::Exttool(_) => config.interface == InterfaceMode::Exttool,
            AnyBackend::Simulation(_) => config.interface == InterfaceMode::Simulation,
        },
        r matches Ok(b) ==> (b matches AnyBackend::Simulation(sb) ==> sb.model() == sim_initial()),
{
    match config.interface {
        InterfaceMode::Remote => {
            match link {
                Some(link) => Ok(AnyBackend::Remote(RemoteBackend::new(link, config.address))),
                None => Err(TransportError::PortRequired),
            }
        },
        InterfaceMode::Exttool => {
            match link {
                Some(link) => Ok(AnyBackend::Exttool(ExtToolBackend::new(link, config.address))),
                None => Err(TransportError::PortRequired),
            }
        },
        InterfaceMode::Simulation => {
            if simulation_enabled {
                Ok(AnyBackend::Simulation(SimBackend::new()))
            } else {
                Err(TransportError::SimulationUnavailable)
            }
        },
    }
}

} // verus!
