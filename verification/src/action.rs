//! Actions that the vehicle is asked to run, on nodes, on edges or at once.
use vstd::prelude::*;

use crate::common::Real32;

verus! {

/// Whether an action blocks driving or other actions.
#[derive(Clone, Copy, PartialEq, Eq, Structural, Debug)]
pub enum BlockingType {
    /// Driving and other actions may go on while the action runs.
    NoBlocking,
    /// Other actions may run, but the vehicle must not drive.
    Soft,
    /// No other action may run and the vehicle must not drive.
    Hard,
}

/// The value of an action parameter.
#[derive(Debug)]
pub enum ActionParameterValue {
    /// A string value.
    Str(String),
    /// A numeric value.
    Float(Real32),
    /// A boolean value.
    Bool(bool),
}

impl Clone for ActionParameterValue {
    fn clone(&self) -> (r: Self)
        ensures
            r == *self,
    {
        match self {
            ActionParameterValue::Str(s) => ActionParameterValue::Str(s.clone()),
            ActionParameterValue::Float(f) => ActionParameterValue::Float(*f),
            ActionParameterValue::Bool(b) => ActionParameterValue::Bool(*b),
        }
    }
}

/// A key-value parameter of an action.
#[derive(Clone, Debug)]
pub struct ActionParameter {
    /// The key of the parameter.
    pub key: String,
    /// The value of the parameter.
    pub value: ActionParameterValue,
}

/// An action to be run by the vehicle.
#[derive(Clone, Debug)]
pub struct Action {
    /// Name of the action, e.g. "initPosition".
    pub action_type: String,
    /// Unique identification of the action.
    pub action_id: String,
    /// Additional information on the action.
    pub action_description: Option<String>,
    /// How the action blocks driving and other actions.
    pub blocking_type: BlockingType,
    /// Parameters of the action.
    pub action_parameters: Option<Vec<ActionParameter>>,
}

}
