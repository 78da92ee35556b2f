//! The order message, sent from master control to the vehicle.
use vstd::prelude::*;

use crate::action::Action;
use crate::common::{HeaderId, NodePosition, Real32, Trajectory};

verus! {

/// An order to be communicated from master control to the vehicle.
#[derive(Clone, Debug)]
pub struct Order {
    /// Header id of the message, incremented by 1 with each message sent on the topic.
    pub header_id: HeaderId,
    /// Timestamp (ISO8601, UTC); YYYY-MM-DDTHH:mm:ss.ssZ.
    pub timestamp: String,
    /// Version of the protocol [Major].[Minor].[Patch], e.g. 1.3.2.
    pub version: String,
    /// Manufacturer of the vehicle.
    pub manufacturer: String,
    /// Serial number of the vehicle.
    pub serial_number: String,
    /// Unique order identification.
    pub order_id: String,
    /// Order update identification, unique per order id.
    pub order_update_id: u64,
    /// Unique identifier of the zone set the vehicle has to use for navigation.
    pub zone_set_id: Option<String>,
    /// The base and horizon nodes of the order graph.
    pub nodes: Vec<Node>,
    /// The base and horizon edges of the order graph.
    pub edges: Vec<Edge>,
}

/// A node of an order.
#[derive(Clone, Debug)]
pub struct Node {
    /// Unique node identification.
    pub node_id: String,
    /// Tracks the sequence of nodes and edges in an order.
    pub sequence_id: u64,
    /// Verbose node description.
    pub node_description: Option<String>,
    /// True if the node is part of the base plan, false if part of the horizon.
    pub released: bool,
    /// Position of the node on a map.
    pub node_position: Option<NodePosition>,
    /// Actions to be run on the node, in order.
    pub actions: Vec<Action>,
}

/// An edge of an order.
#[derive(Clone, Debug)]
pub struct Edge {
    /// Unique edge identification.
    pub edge_id: String,
    /// Tracks the sequence of nodes and edges in an order.
    pub sequence_id: u64,
    /// Verbose description of the edge.
    pub edge_description: Option<String>,
    /// True if the edge is part of the base plan, false if part of the horizon.
    pub released: bool,
    /// The node id of the start node.
    pub start_node_id: String,
    /// The node id of the end node.
    pub end_node_id: String,
    /// Permitted maximum speed on the edge, in m/s.
    pub max_speed: Option<Real32>,
    /// Permitted maximum height of the vehicle with its load, in meters.
    pub max_height: Option<Real32>,
    /// Permitted minimal height of the load handling device, in meters.
    pub min_height: Option<Real32>,
    /// Orientation of the vehicle on the edge, in radians.
    pub orientation: Option<Real32>,
    /// How the orientation is to be read.
    pub orientation_type: Option<OrientationType>,
    /// Direction at junctions for line-guided vehicles.
    pub direction: Option<String>,
    /// True if rotation is allowed on the edge.
    pub rotation_allowed: Option<bool>,
    /// Maximum rotation speed, in rad/s.
    pub max_rotation_speed: Option<Real32>,
    /// Distance from the start node to the end node, in meters.
    pub length: Option<Real32>,
    /// Trajectory the vehicle follows on the edge.
    pub trajectory: Option<Trajectory>,
    /// Actions to be run on the edge.
    pub actions: Vec<Action>,
}

/// How the orientation of an edge is to be read.
#[derive(Clone, Copy, PartialEq, Eq, Structural, Debug)]
pub enum OrientationType {
    /// Relative to the global, project specific map coordinate system.
    Global,
    /// Tangential to the edge.
    Tangential,
}

}
