//! Resolution of startup options into the worker's transport configuration:
//! interface-specific defaults for baud rate and device address, and the
//! rule that every serial interface needs a port path.

use vstd::prelude::*;

use crate::errors::TransportError;
use crate::interface::InterfaceMode;
use crate::transport::TransportConfig;

verus! {

/// The startup options, as plain values, before resolution.
#[derive(Debug, Clone)]
pub struct CliArgs {
    /// Serial port path, if one was given.
    pub port: Option<String>,
    /// Serial baud rate, if one was given.
    pub baud: Option<u32>,
    /// Protocol device address, if one was given.
    pub address: Option<u8>,
    /// Poll interval in milliseconds.
    pub poll_interval_ms: u64,
    /// The selected device interface.
    pub interface: InterfaceMode,
    /// Disable write commands.
    pub read_only: bool,
}

/// The resolved runtime bundle handed to the worker and the display.
#[derive(Debug, Clone)]
pub struct RuntimeArgs {
    pub transport: TransportConfig,
    pub read_only: bool,
    pub simulate_ui: bool,
}

/// Accepts the requested interface, unless the simulator was requested in a
/// configuration where it is disabled.
pub fn resolve_interface_mode(requested: InterfaceMode, simulation_enabled: bool) -> (r: Result<
    InterfaceMode,
    TransportError,
>)
    ensures
        r is Ok <==> (simulation_enabled || requested != InterfaceMode::Simulation),
        r matches Ok(mode) ==> mode == requested,
        requested == InterfaceMode::Simulation && !simulation_enabled ==> r == Err::<
            InterfaceMode,
            TransportError,
        >(TransportError::SimulationUnavailable),
{
    if requested == InterfaceMode::Simulation && !simulation_enabled {
        return Err(TransportError::SimulationUnavailable);
    }
    Ok(requested)
}

/// Resolves startup options into a runtime bundle: explicit baud and
/// address override the interface defaults; a port path is required for
/// every interface but the simulator, which never takes one.
pub fn resolve_runtime_args(args: CliArgs) -> (r: Result<RuntimeArgs, TransportError>)
    ensures
        r is Ok <==> (args.interface == InterfaceMode::Simulation || args.port is Some),
        args.interface != InterfaceMode::Simulation && args.port is None ==> (r matches Err(e) && e
            == TransportError::PortRequired),
        r matches Ok(rt) ==> ({
            &&& rt.transport.interface == args.interface
            &&& rt.transport.poll_interval_ms == args.poll_interval_ms
            &&& rt.transport.read_only == args.read_only
            &&& rt.read_only == args.read_only
            &&& rt.simulate_ui == (args.interface == InterfaceMode::Simulation)
            &&& (args.baud matches Some(b) ==> rt.transport.baud == b)
            &&& (args.baud is None && args.interface == InterfaceMode::Exttool
                ==> rt.transport.baud == 38400)
            &&& (args.baud is None && args.interface != InterfaceMode::Exttool
                ==> rt.transport.baud == 19200)
            &&& (args.address matches Some(a) ==> rt.transport.address == a)
            &&& (args.address is None && args.interface == InterfaceMode::Exttool
                ==> rt.transport.address == 1)
            &&& (args.address is None && args.interface != InterfaceMode::Exttool
                ==> rt.transport.address == 2)
            &&& (args.interface == InterfaceMode::Simulation ==> rt.transport.port is None)
            &&& (args.interface != InterfaceMode::Simulation ==> rt.transport.port == args.port)
        }),
{
    let baud = match args.baud {
        Some(b) => b,
        None => args.interface.default_baud(),
    };
    let address = match args.address {
        Some(a) => a,
        None => args.interface.default_address(),
    };

    let port = match args.interface {
        InterfaceMode::Simulation => None,
        _ => {
            match args.port {
                Some(p) => Some(p),
                None => {
                    return Err(TransportError::PortRequired);
                },
            }
        },
    };

    Ok(
        RuntimeArgs {
            transport: TransportConfig {
                port,
                baud,
                address,
                poll_interval_ms: args.poll_interval_ms,
                read_only: args.read_only,
                interface: args.interface,
            },
            read_only: args.read_only,
            simulate_ui: args.interface == InterfaceMode::Simulation,
        },
    )
}

} // verus!
