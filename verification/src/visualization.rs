//! The visualization message: position and velocity, for display.
use vstd::prelude::*;

use crate::common::{AgvPosition, HeaderId, Velocity};

verus! {

/// Vehicle position and/or velocity for visualization purposes. Can be
/// published at a higher rate if wanted; all fields but the header are optional.
#[derive(Clone, Debug)]
pub struct Visualization {
    /// Header id of the message, incremented by 1 with each message sent on the topic.
    pub header_id: HeaderId,
    /// Timestamp (ISO8601, UTC); YYYY-MM-DDTHH:mm:ss.ssZ.
    pub timestamp: String,
    /// Version of the protocol [Major].[Minor].[Patch], e.g. 1.3.2.
    pub version: String,
    /// Manufacturer of the vehicle.
    pub manufacturer: String,
    /// Serial number of the vehicle.
    pub serial_number: String,
    /// Current position of the vehicle on the map.
    pub agv_position: Option<AgvPosition>,
    /// The vehicle's velocity in vehicle coordinates.
    pub velocity: Option<Velocity>,
}

}
