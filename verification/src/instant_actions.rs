//! The instant-actions message: actions to be run at once.
use vstd::prelude::*;

use crate::action::Action;
use crate::common::HeaderId;

verus! {

/// Actions that the vehicle is to run at once, outside of any order.
#[derive(Clone, Debug)]
pub struct InstantActions {
    /// Header id of the message.
    pub header_id: HeaderId,
    /// Timestamp (ISO8601, UTC).
    pub timestamp: String,
    /// Version of the protocol.
    pub version: String,
    /// Manufacturer of the vehicle.
    pub manufacturer: String,
    /// Serial number of the vehicle.
    pub serial_number: String,
    /// The actions to run.
    pub actions: Vec<Action>,
}

}
