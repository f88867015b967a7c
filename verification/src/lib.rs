//! Transport layer for a serial flow-control device: frame codec with a
//! 16-bit checksum, a decoded register snapshot, two wire-protocol backends
//! (a generic register protocol and an indexed byte-range protocol), a
//! backend selector, the worker step logic that bridges commands and events,
//! and an offline device simulator.

pub mod args;
pub mod backend;
pub mod constants;
pub mod data;
pub mod exttool;
pub mod errors;
pub mod interface;
pub mod remote;
pub mod rtu;
pub mod sim;
pub mod transport;
