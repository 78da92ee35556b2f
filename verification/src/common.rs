//! Types shared by several VDA 5050 messages.
use vstd::prelude::*;

verus! {

/// Header id of a message: defined per topic and incremented by one with each
/// message sent on it.
pub type HeaderId = u32;

/// A single-precision real, held by its IEEE-754 bit pattern.
///
/// The library never computes with such a value; it stores and copies it, and
/// the caller converts it from and to its numeric form.
#[derive(Clone, Copy, PartialEq, Eq, Structural, Debug)]
pub struct Real32 {
    pub bits: u32,
}

impl Real32 {
    /// The real 0.0.
    pub fn zero() -> (r: Real32)
        ensures
            r.bits == 0,
    {
        Real32 { bits: 0 }
    }
}

/// Position of a node on a map, in world coordinates.
#[derive(Debug)]
pub struct NodePosition {
    /// X-position on the map in reference to the map coordinate system, in meters.
    pub x: Real32,
    /// Y-position on the map in reference to the map coordinate system, in meters.
    pub y: Real32,
    /// Absolute orientation of the vehicle on the node, in radians.
    pub theta: Option<Real32>,
    /// How far the vehicle may deviate from the position, in meters.
    pub allowed_deviation_x_y: Option<Real32>,
    /// How far the vehicle may deviate from theta, in radians.
    pub allowed_deviation_theta: Option<Real32>,
    /// Unique identification of the map on which the position is referenced.
    pub map_id: String,
    /// Verbose description of the map.
    pub map_description: Option<String>,
}

impl Clone for NodePosition {
    fn clone(&self) -> (r: Self)
        ensures
            r == *self,
    {
        NodePosition {
            x: self.x,
            y: self.y,
            theta: self.theta,
            allowed_deviation_x_y: self.allowed_deviation_x_y,
            allowed_deviation_theta: self.allowed_deviation_theta,
            map_id: self.map_id.clone(),
            map_description: self.map_description.clone(),
        }
    }
}

/// Position of the vehicle on a map.
#[derive(Debug)]
pub struct AgvPosition {
    /// X-position on the map, in meters.
    pub x: Real32,
    /// Y-position on the map, in meters.
    pub y: Real32,
    /// Orientation of the vehicle, in radians.
    pub theta: Real32,
    /// Unique identification of the map the position refers to.
    pub map_id: String,
    /// Additional information on the map.
    pub map_description: Option<String>,
    /// False if the vehicle has not yet been localized.
    pub position_initialized: bool,
    /// How good the localization is, between 0.0 and 1.0.
    pub localization_score: Option<Real32>,
    /// Deviation range of the position, in meters.
    pub deviation_range: Option<Real32>,
}

impl Clone for AgvPosition {
    fn clone(&self) -> (r: Self)
        ensures
            r == *self,
    {
        AgvPosition {
            x: self.x,
            y: self.y,
            theta: self.theta,
            map_id: self.map_id.clone(),
            map_description: self.map_description.clone(),
            position_initialized: self.position_initialized,
            localization_score: self.localization_score,
            deviation_range: self.deviation_range,
        }
    }
}

/// Velocity of the vehicle in vehicle coordinates.
#[derive(Clone, Copy, Debug)]
pub struct Velocity {
    /// Velocity in the vehicle's x direction, in m/s.
    pub vx: Option<Real32>,
    /// Velocity in the vehicle's y direction, in m/s.
    pub vy: Option<Real32>,
    /// Turning speed around the vehicle's z axis, in rad/s.
    pub omega: Option<Real32>,
}

/// A control point of a NURBS trajectory.
#[derive(Clone, Copy, Debug)]
pub struct ControlPoint {
    /// X coordinate, in meters.
    pub x: Real32,
    /// Y coordinate, in meters.
    pub y: Real32,
    /// Weight with which the point pulls the curve.
    pub weight: Option<Real32>,
}

/// A trajectory, given as a NURBS, that the vehicle follows on an edge.
#[derive(Debug)]
pub struct Trajectory {
    /// Degree of the NURBS curve.
    pub degree: Real32,
    /// Knot vector of the curve.
    pub knot_vector: Vec<Real32>,
    /// Control points of the curve.
    pub control_points: Vec<ControlPoint>,
}

/// What a trajectory holds, with its lists as sequences.
pub struct TrajectoryView {
    pub degree: Real32,
    pub knot_vector: Seq<Real32>,
    pub control_points: Seq<ControlPoint>,
}

impl View for Trajectory {
    type V = TrajectoryView;

    open spec fn view(&self) -> TrajectoryView {
        TrajectoryView {
            degree: self.degree,
            knot_vector: self.knot_vector@,
            control_points: self.control_points@,
        }
    }
}

/// The view of an optional trajectory.
pub open spec fn trajectory_view(t: Option<Trajectory>) -> Option<TrajectoryView> {
    match t {
        Some(t) => Some(t@),
        None => None,
    }
}

impl Clone for Trajectory {
    fn clone(&self) -> (r: Self)
        ensures
            r@ == self@,
    {
        let knot_vector = self.knot_vector.clone();
        let control_points = self.control_points.clone();
        assert(knot_vector@ =~= self.knot_vector@);
        assert(control_points@ =~= self.control_points@);
        Trajectory { degree: self.degree, knot_vector, control_points }
    }
}

/// Copies an optional trajectory.
pub fn clone_trajectory(t: &Option<Trajectory>) -> (r: Option<Trajectory>)
    ensures
        trajectory_view(r) == trajectory_view(*t),
{
    match t {
        Some(t) => Some(t.clone()),
        None => None,
    }
}

}
