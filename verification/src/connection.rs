//! The connection message, which tells the broker whether the vehicle is online.
use vstd::prelude::*;

use crate::common::HeaderId;

verus! {

/// The state of the vehicle's connection.
#[derive(Clone, Copy, PartialEq, Eq, Structural, Debug)]
pub enum ConnectionState {
    /// The connection between vehicle and broker is active.
    Online,
    /// The connection was ended in a coordinated way.
    Offline,
    /// The connection ended unexpectedly.
    ConnectionBroken,
}

/// The connection message.
#[derive(Clone, Debug)]
pub struct Connection {
    /// Header id of the message.
    pub header_id: HeaderId,
    /// Timestamp (ISO8601, UTC).
    pub timestamp: String,
    /// Version of the protocol.
    pub version: String,
    /// Manufacturer of the vehicle.
    pub manufacturer: String,
    /// Serial number of the vehicle.
    pub serial_number: String,
    /// The state of the connection.
    pub connection_state: ConnectionState,
}

}
