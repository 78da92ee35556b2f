//! The state message: what the vehicle reports about itself.
use vstd::prelude::*;

use crate::common::{AgvPosition, HeaderId, NodePosition, Real32, Trajectory, Velocity};
use crate::factsheet::{BoundingBoxReference, LoadDimensions};

verus! {

/// The state of the vehicle.
#[derive(Clone, Debug)]
pub struct State {
    /// Header id of the message.
    pub header_id: HeaderId,
    /// Timestamp (ISO8601, UTC).
    pub timestamp: String,
    /// Version of the protocol.
    pub version: String,
    /// Manufacturer of the vehicle.
    pub manufacturer: String,
    /// Serial number of the vehicle.
    pub serial_number: String,
    /// Unique order identification of the current order, or empty.
    pub order_id: String,
    /// Order update identification of the current order.
    pub order_update_id: u64,
    /// Unique identifier of the zone set in use.
    pub zone_set_id: Option<String>,
    /// Node id of the last node reached, or empty.
    pub last_node_id: String,
    /// Sequence id of the last node reached.
    pub last_node_sequence_id: u64,
    /// True while the vehicle is driving or rotating.
    pub driving: bool,
    /// True while the vehicle is paused.
    pub paused: Option<bool>,
    /// True when the vehicle is about to finish its base and asks for more.
    pub new_base_request: Option<bool>,
    /// Distance driven since the last node, in meters.
    pub distance_since_last_node: Option<Real32>,
    /// Current operating mode of the vehicle.
    pub operating_mode: OperatingMode,
    /// The nodes the vehicle still has to traverse.
    pub node_states: Vec<NodeState>,
    /// The edges the vehicle still has to traverse.
    pub edge_states: Vec<EdgeState>,
    /// Current position of the vehicle on the map.
    pub agv_position: Option<AgvPosition>,
    /// The vehicle's velocity in vehicle coordinates.
    pub velocity: Option<Velocity>,
    /// Loads the vehicle carries.
    pub loads: Vec<Load>,
    /// States of the actions of the current order and of instant actions.
    pub action_states: Vec<ActionState>,
    /// State of the battery.
    pub battery_state: BatteryState,
    /// Errors of the vehicle.
    pub errors: Vec<Error>,
    /// Information about the vehicle, for visualization or debugging.
    pub information: Vec<Information>,
    /// State of the safety functions.
    pub safety_state: SafetyState,
}

/// A node that the vehicle still has to traverse.
#[derive(Clone, Debug)]
pub struct NodeState {
    /// Unique node identification.
    pub node_id: String,
    /// Sequence id of the node in its order.
    pub sequence_id: u64,
    /// Verbose node description.
    pub node_description: Option<String>,
    /// Position of the node on a map.
    pub node_position: Option<NodePosition>,
    /// True if the node is part of the base plan.
    pub released: bool,
}

/// An edge that the vehicle still has to traverse.
#[derive(Clone, Debug)]
pub struct EdgeState {
    /// Unique edge identification.
    pub edge_id: String,
    /// Sequence id of the edge in its order.
    pub sequence_id: u64,
    /// Verbose edge description.
    pub edge_description: Option<String>,
    /// True if the edge is part of the base plan.
    pub released: bool,
    /// Trajectory of the edge.
    pub trajectory: Option<Trajectory>,
}

/// Where an action stands.
#[derive(Clone, Copy, PartialEq, Eq, Structural, Debug)]
pub enum ActionStatus {
    /// Received, not yet started.
    Waiting,
    /// Being started.
    Initializing,
    /// Running.
    Running,
    /// Paused.
    Paused,
    /// Done.
    Finished,
    /// Could not be run or failed.
    Failed,
}

/// The state of one action.
#[derive(Debug)]
pub struct ActionState {
    /// Unique identification of the action.
    pub action_id: String,
    /// Type of the action.
    pub action_type: Option<String>,
    /// Additional information on the action.
    pub action_description: Option<String>,
    /// Where the action stands.
    pub action_status: ActionStatus,
    /// Description of the result, e.g. the result of an RFID read.
    pub result_description: Option<String>,
}

impl Clone for ActionState {
    fn clone(&self) -> (r: Self)
        ensures
            r == *self,
    {
        ActionState {
            action_id: self.action_id.clone(),
            action_type: self.action_type.clone(),
            action_description: self.action_description.clone(),
            action_status: self.action_status,
            result_description: self.result_description.clone(),
        }
    }
}

/// The operating mode of the vehicle.
#[derive(Clone, Copy, PartialEq, Eq, Structural, Debug)]
pub enum OperatingMode {
    /// The vehicle is under full control of master control.
    Automatic,
    /// Master control is in control, but speed is set by hand.
    Semiautomatic,
    /// Master control is not in control.
    Manual,
    /// Master control is not in control; authorized personnel may reconfigure.
    Service,
    /// The vehicle is being taught, e.g. mapping.
    Teachin,
}

/// State of the battery.
#[derive(Clone, Copy, Debug)]
pub struct BatteryState {
    /// State of charge, in percent.
    pub battery_charge: Real32,
    /// Battery voltage.
    pub battery_voltage: Option<Real32>,
    /// State of health, in percent.
    pub battery_health: Option<i8>,
    /// True while charging.
    pub charging: bool,
    /// Estimated reach with the current charge, in meters.
    pub reach: Option<u32>,
}

/// Acknowledge type of an emergency stop.
#[derive(Clone, Copy, PartialEq, Eq, Structural, Debug)]
pub enum EStop {
    /// Auto-acknowledgeable e-stop is activated.
    Autoack,
    /// E-stop has to be acknowledged manually at the vehicle.
    Manual,
    /// Facility e-stop has to be acknowledged remotely.
    Remote,
    /// No e-stop activated.
    NoStop,
}

/// State of the safety functions.
#[derive(Clone, Copy, Debug)]
pub struct SafetyState {
    /// Acknowledge type of the e-stop.
    pub e_stop: EStop,
    /// True while a protective field is violated.
    pub field_violation: bool,
}

/// A load carried by the vehicle.
#[derive(Clone, Debug)]
pub struct Load {
    /// Unique identification of the load.
    pub load_id: Option<String>,
    /// Type of the load.
    pub load_type: Option<String>,
    /// Position of the load on the vehicle.
    pub load_position: Option<String>,
    /// Reference point of the load's bounding box.
    pub bounding_box_reference: Option<BoundingBoxReference>,
    /// Dimensions of the load's bounding box.
    pub load_dimensions: Option<LoadDimensions>,
    /// Weight of the load, in kg.
    pub weight: Option<Real32>,
}

/// Level of an error.
#[derive(Clone, Copy, PartialEq, Eq, Structural, Debug)]
pub enum ErrorLevel {
    /// The vehicle can go on.
    Warning,
    /// The vehicle cannot go on without help.
    Fatal,
}

/// A reference that helps to find the cause of an error.
#[derive(Clone, Debug)]
pub struct ErrorReference {
    /// Type of the reference, e.g. "nodeId".
    pub reference_key: String,
    /// Value of the reference.
    pub reference_value: String,
}

/// An error of the vehicle.
#[derive(Clone, Debug)]
pub struct Error {
    /// Type or name of the error.
    pub error_type: String,
    /// References that help to find the cause.
    pub error_references: Option<Vec<ErrorReference>>,
    /// Verbose description of the error.
    pub error_description: Option<String>,
    /// Level of the error.
    pub error_level: ErrorLevel,
}

/// Level of an information.
#[derive(Clone, Copy, PartialEq, Eq, Structural, Debug)]
pub enum InfoLevel {
    /// Used for debugging.
    Debug,
    /// Used for visualization.
    Info,
}

/// A reference of an information.
#[derive(Clone, Debug)]
pub struct InfoReference {
    /// Type of the reference.
    pub reference_key: String,
    /// Value of the reference.
    pub reference_value: String,
}

/// An information of the vehicle.
#[derive(Clone, Debug)]
pub struct Information {
    /// Type or name of the information.
    pub info_type: String,
    /// References of the information.
    pub info_references: Option<Vec<InfoReference>>,
    /// Verbose description of the information.
    pub info_description: Option<String>,
    /// Level of the information.
    pub info_level: InfoLevel,
}

}
