//! Host connectivity monitoring for a VPN client's control plane.
//!
//! The library decides whether the machine currently has any usable network
//! path ("offline" means that no running, non-loopback interface carries an
//! IP address) and reports *transitions* of that verdict to a consumer
//! exactly once per change.  It also validates the relay and tunnel options
//! that the command-line front end accepts.
//!
//! All kernel I/O (the netlink socket, the event stream, the background
//! thread) lives outside this crate; the functions here take the plain
//! values that those queries return and are verified over them.

use vstd::prelude::*;

pub mod link;
pub mod evaluator;
pub mod monitor;
pub mod connection;
pub mod relay;

verus! {

/// Errors of the connectivity monitor.
///
/// The variants mirror the failure modes of the kernel query channel; the
/// underlying transport errors carry no further payload here because the
/// callers only dispatch on which failure occurred.
#[derive(Debug, Clone, PartialEq, Eq, Structural)]
pub enum Error {
    /// The kernel facility rejected or errored on a specific query.
    GetLinksError,
    /// The channel to the kernel configuration facility could not be opened.
    NetlinkConnectionError,
    /// Listening on the notification socket could not be started.
    NetlinkBindError,
    /// The transport failed while a request was in flight.
    NetlinkError,
    /// The notification stream itself failed.
    MonitorNetlinkError,
    /// The connection resource was unexpectedly absent: a prior operation
    /// failed without returning it, and this connection instance must not
    /// be reused.
    NetlinkDisconnected,
}

/// Opaque handle returned when the background monitor is spawned; it makes
/// the monitor's lifetime visible to the caller.
pub struct MonitorHandle;

} // verus!
