//! One step of the simulation: running waiting actions and driving along the
//! order's nodes.
//!
//! A step first waits while a node action is still running. It then runs the
//! instant actions that wait, in order; an `initPosition` action needs its
//! coordinates read as reals, so the step stops there and hands a request to
//! the caller, who finishes the action with `finish_init_position` and starts
//! the step again. With an order, the step then runs the first waiting action
//! of the node the vehicle stands on (a node's actions run in the order of its
//! list, one per step, each holding the next steps for the action time), and
//! finally asks the caller to move the vehicle towards the next released node
//! (`finish_movement`).
use vstd::prelude::*;

use crate::action::{Action, ActionParameter, ActionParameterValue};
use crate::common::{clone_trajectory, trajectory_view, AgvPosition, NodePosition, Real32, Trajectory};
use crate::order::{Node, Order};
use crate::search::{first_index, index_opt, is_first_index, lemma_first_index_found,
    lemma_first_index_none};
use crate::simulator::VehicleSimulator;
use crate::state::{ActionState, ActionStatus, EdgeState, NodeState, State};
use crate::utils::{str_equal, unix_seconds_now};
use crate::visualization::Visualization;

verus! {

/// Selects the action states of the action `id`.
pub open spec fn has_action_id(id: Seq<char>) -> spec_fn(ActionState) -> bool {
    |s: ActionState| s.action_id@ == id
}

/// The index of the first state of the action `id`.
pub open spec fn state_index_of(states: Seq<ActionState>, id: Seq<char>) -> Option<int> {
    first_index(states, has_action_id(id))
}

/// The first state of the action `a` waits.
pub open spec fn is_pending(states: Seq<ActionState>, a: Action) -> bool {
    match state_index_of(states, a.action_id@) {
        Some(i) => states[i].action_status == ActionStatus::Waiting,
        None => false,
    }
}

/// `a` sets the vehicle's position.
pub open spec fn is_init_position(a: Action) -> bool {
    a.action_type@ == "initPosition"@
}

/// `states` with the status of its `i`-th element set to `status`.
pub open spec fn with_status(states: Seq<ActionState>, i: int, status: ActionStatus) -> Seq<
    ActionState,
> {
    states.update(i, ActionState { action_status: status, ..states[i] })
}

/// Runs the instant actions from the `k`-th on: each whose first state waits
/// is run, which finishes it, until an `initPosition` action is met; that one
/// is left running and its index returned.
pub open spec fn instant_phase(states: Seq<ActionState>, actions: Seq<Action>, k: nat) -> (Seq<
    ActionState,
>, Option<int>)
    decreases actions.len() - k,
{
    if k >= actions.len() {
        (states, None)
    } else {
        let a = actions[k as int];
        if is_pending(states, a) {
            let i = state_index_of(states, a.action_id@).unwrap();
            if is_init_position(a) {
                (with_status(states, i, ActionStatus::Running), Some(k as int))
            } else {
                instant_phase(with_status(states, i, ActionStatus::Finished), actions, (k + 1) as nat)
            }
        } else {
            instant_phase(states, actions, (k + 1) as nat)
        }
    }
}

/// Where the instant actions stop, they stop at one of them.
pub proof fn lemma_instant_phase_stop_in_range(states: Seq<ActionState>, actions: Seq<Action>, k: nat)
    ensures
        instant_phase(states, actions, k).1 matches Some(j) ==> k <= j < actions.len(),
    decreases actions.len() - k,
{
    if k < actions.len() {
        let a = actions[k as int];
        if is_pending(states, a) {
            let i = state_index_of(states, a.action_id@).unwrap();
            if !is_init_position(a) {
                lemma_instant_phase_stop_in_range(
                    with_status(states, i, ActionStatus::Finished),
                    actions,
                    (k + 1) as nat,
                );
            }
        } else {
            lemma_instant_phase_stop_in_range(states, actions, (k + 1) as nat);
        }
    }
}

/// The vehicle's instant actions.
pub open spec fn instant_actions_of(sim: VehicleSimulator) -> Seq<Action> {
    match sim.instant_actions {
        Some(ia) => ia.actions@,
        None => Seq::empty(),
    }
}

/// Selects the parameters with key `key`.
pub open spec fn has_key(key: Seq<char>) -> spec_fn(ActionParameter) -> bool {
    |p: ActionParameter| p.key@ == key
}

/// The value of the first parameter of `a` with key `key`.
pub open spec fn parameter_value(a: Action, key: Seq<char>) -> Option<ActionParameterValue> {
    match a.action_parameters {
        Some(ps) => match first_index(ps@, has_key(key)) {
            Some(i) => Some(ps@[i].value),
            None => None,
        },
        None => None,
    }
}

/// `a` has the parameters that setting the position reads.
pub open spec fn init_parameters_present(a: Action) -> bool {
    &&& parameter_value(a, "x"@) is Some
    &&& parameter_value(a, "y"@) is Some
    &&& parameter_value(a, "theta"@) is Some
    &&& parameter_value(a, "mapId"@) is Some
    &&& parameter_value(a, "lastNodeId"@) is Some
}

/// The text of a parameter value: a string as it is, anything else empty.
pub open spec fn parameter_text(v: ActionParameterValue) -> Seq<char> {
    match v {
        ActionParameterValue::Str(s) => s@,
        _ => Seq::empty(),
    }
}

/// What finishing an `initPosition` action needs: the values of its
/// coordinates, to be read as reals by the caller, and its map and last node.
#[derive(Debug)]
pub struct InitPositionRequest {
    /// The action being run.
    pub action_id: String,
    /// The value of the parameter "x".
    pub x: ActionParameterValue,
    /// The value of the parameter "y".
    pub y: ActionParameterValue,
    /// The value of the parameter "theta".
    pub theta: ActionParameterValue,
    /// The text of the parameter "mapId".
    pub map_id: String,
    /// The text of the parameter "lastNodeId".
    pub last_node_id: String,
}

/// `req` is what finishing the `initPosition` action `a` needs.
pub open spec fn init_request_matches(req: InitPositionRequest, a: Action) -> bool {
    &&& req.action_id == a.action_id
    &&& Some(req.x) == parameter_value(a, "x"@)
    &&& Some(req.y) == parameter_value(a, "y"@)
    &&& Some(req.theta) == parameter_value(a, "theta"@)
    &&& req.map_id@ == parameter_text(parameter_value(a, "mapId"@).unwrap())
    &&& req.last_node_id@ == parameter_text(parameter_value(a, "lastNodeId"@).unwrap())
}

/// What moving the vehicle needs: where it stands, the node it heads for and
/// the trajectory of the edge leading there, if the vehicle knows that edge.
#[derive(Debug)]
pub struct MoveRequest {
    /// The vehicle's position before the move.
    pub vehicle: AgvPosition,
    /// Position of the node the vehicle heads for.
    pub target: NodePosition,
    /// Trajectory of the edge that leads to that node.
    pub trajectory: Option<Trajectory>,
    /// Id of the node the vehicle heads for.
    pub next_node_id: String,
    /// Sequence id of the node the vehicle heads for.
    pub next_sequence_id: u64,
}

/// Why a step at the current time was not taken.
#[derive(Clone, Copy, PartialEq, Eq, Structural, Debug)]
pub enum StepFault {
    /// The clock reads a time before the Unix epoch, or too late for 64-bit seconds.
    ClockUnreadable,
    /// The step would read a value that is missing (see `tick_panic_free`).
    MissingValue,
}

/// What a step asks of the caller.
#[derive(Debug)]
pub enum TickOutcome {
    /// Nothing: the step is over.
    Idle,
    /// Read the coordinates of an `initPosition` action and finish it with
    /// `finish_init_position`; then start the step again.
    InitPosition(InitPositionRequest),
    /// Move the vehicle and finish the step with `finish_movement`.
    Move(MoveRequest),
}

/// A node action started at `action_start_time` is still running at `now`.
pub open spec fn action_gate_closed(sim: VehicleSimulator, now: i64) -> bool {
    match sim.action_start_time {
        Some(t) => now < t + (sim.config.settings.action_time as i64),
        None => false,
    }
}

/// The end of the running node action is a 64-bit time.
pub open spec fn gate_in_range(sim: VehicleSimulator) -> bool {
    match sim.action_start_time {
        Some(t) => i64::MIN <= t + (sim.config.settings.action_time as i64) <= i64::MAX,
        None => true,
    }
}

/// Selects the order nodes with sequence id `seq`.
pub open spec fn node_with_sequence(seq: u64) -> spec_fn(Node) -> bool {
    |n: Node| n.sequence_id == seq
}

/// The actions of the order node the vehicle stands on: the first with the
/// sequence id of the last node reached.
pub open spec fn order_check_actions(order: Order, last_sequence_id: u64) -> Seq<Action> {
    match first_index(order.nodes@, node_with_sequence(last_sequence_id)) {
        Some(i) => order.nodes@[i].actions@,
        None => Seq::empty(),
    }
}

/// Selects the actions whose first state in `states` waits.
pub open spec fn pending_in(states: Seq<ActionState>) -> spec_fn(Action) -> bool {
    |a: Action| is_pending(states, a)
}

/// The node-action part of a step: the actions of the node run in the order
/// of its list, one per step. The first of `checks` whose state waits is
/// finished, and the action timer starts (`true`); where none waits, nothing
/// changes (`false`).
pub open spec fn node_phase(states: Seq<ActionState>, checks: Seq<Action>) -> (Seq<ActionState>, bool) {
    match first_index(checks, pending_in(states)) {
        Some(k) => (
            with_status(
                states,
                state_index_of(states, checks[k].action_id@).unwrap(),
                ActionStatus::Finished,
            ),
            true,
        ),
        None => (states, false),
    }
}

/// Selects the node states with sequence id `seq`.
pub open spec fn node_state_with_sequence(seq: u64) -> spec_fn(NodeState) -> bool {
    |n: NodeState| n.sequence_id == seq
}

/// Selects the edge states with sequence id `seq`.
pub open spec fn edge_state_with_sequence(seq: int) -> spec_fn(EdgeState) -> bool {
    |e: EdgeState| e.sequence_id == seq
}

/// The index of the node the vehicle stands on: the first node state with
/// the sequence id of the last node reached, or the first node state.
pub open spec fn last_node_index(s: State) -> int {
    match first_index(s.node_states@, node_state_with_sequence(s.last_node_sequence_id)) {
        Some(i) => i,
        None => 0,
    }
}

/// The node the vehicle heads for.
pub open spec fn next_node(s: State) -> NodeState {
    s.node_states@[last_node_index(s) + 1]
}

/// The index of the edge that leads to the next node: the first edge state
/// whose sequence id is one less than the node's.
pub open spec fn next_edge_index(s: State) -> Option<int> {
    if s.edge_states@.len() == 0 {
        None
    } else {
        first_index(s.edge_states@, edge_state_with_sequence(next_node(s).sequence_id - 1))
    }
}

/// Moving from `s` reads no missing value: a node follows the one the vehicle
/// stands on, and where that node is released it has a position, its sequence
/// id can be lowered by one where edges remain, and the edge leading to it has
/// a trajectory.
pub open spec fn movement_panic_free(s: State) -> bool {
    (s.agv_position is Some && s.node_states@.len() >= 2) ==> {
        &&& last_node_index(s) + 1 < s.node_states@.len()
        &&& next_node(s).released ==> {
            &&& next_node(s).node_position is Some
            &&& s.edge_states@.len() > 0 ==> next_node(s).sequence_id >= 1
            &&& next_edge_index(s) matches Some(e) ==> s.edge_states@[e].trajectory is Some
        }
    }
}

/// `m` asks to move the vehicle, standing at `vp`, towards the next node of `s`.
pub open spec fn move_request_matches(m: MoveRequest, s: State, vp: AgvPosition) -> bool {
    &&& m.vehicle == vp
    &&& Some(m.target) == next_node(s).node_position
    &&& m.next_node_id == next_node(s).node_id
    &&& m.next_sequence_id == next_node(s).sequence_id
    &&& trajectory_view(m.trajectory) == match next_edge_index(s) {
        Some(e) => trajectory_view(s.edge_states@[e].trajectory),
        None => None,
    }
}

/// The movement part of a step from `s`: the node states become `nodes` and
/// the step asks `out` of the caller. A vehicle without position does nothing;
/// a single remaining node is dropped; otherwise the vehicle heads for the
/// node after the one it stands on, where that node is released.
pub open spec fn movement_result(s: State, nodes: Seq<NodeState>, out: TickOutcome) -> bool {
    match s.agv_position {
        None => out is Idle && nodes == s.node_states@,
        Some(vp) => if s.node_states@.len() == 1 {
            out is Idle && nodes == Seq::<NodeState>::empty()
        } else if s.node_states@.len() == 0 {
            out is Idle && nodes == s.node_states@
        } else {
            &&& nodes == s.node_states@
            &&& if next_node(s).released {
                out matches TickOutcome::Move(m) && move_request_matches(m, s, vp)
            } else {
                out is Idle
            }
        },
    }
}

/// A step from `sim` at time `now` reads no missing value and computes no
/// time beyond 64 bits.
pub open spec fn tick_panic_free(sim: VehicleSimulator, now: i64) -> bool {
    &&& gate_in_range(sim)
    &&& !action_gate_closed(sim, now) ==> {
        let (b, stop) = instant_phase(sim.state.action_states@, instant_actions_of(sim), 0);
        &&& stop matches Some(k) ==> init_parameters_present(instant_actions_of(sim)[k])
        &&& (stop is None && sim.order is Some) ==> movement_panic_free(sim.state)
    }
}

/// A step from `s` at time `now` leads to `t` and asks `out` of the caller.
pub open spec fn tick_relation(s: VehicleSimulator, t: VehicleSimulator, now: i64, out: TickOutcome) -> bool {
    if action_gate_closed(s, now) {
        out is Idle && t == s
    } else {
        let acts = instant_actions_of(s);
        let (b, stop) = instant_phase(s.state.action_states@, acts, 0);
        match stop {
            Some(k) => {
                &&& out matches TickOutcome::InitPosition(req) && init_request_matches(req, acts[k])
                &&& t.state.action_states@ == b
                &&& t == (VehicleSimulator {
                    state: State { action_states: t.state.action_states, ..s.state },
                    ..s
                })
            },
            None => match s.order {
                None => {
                    &&& out is Idle
                    &&& t.state.action_states@ == b
                    &&& t == (VehicleSimulator {
                        state: State { action_states: t.state.action_states, ..s.state },
                        ..s
                    })
                },
                Some(order) => {
                    let checks = order_check_actions(order, s.state.last_node_sequence_id);
                    let (c, started) = node_phase(b, checks);
                    &&& t.state.action_states@ == c
                    &&& t.action_start_time == if started {
                        Some(now)
                    } else {
                        s.action_start_time
                    }
                    &&& movement_result(s.state, t.state.node_states@, out)
                    &&& t == (VehicleSimulator {
                        state: State {
                            action_states: t.state.action_states,
                            node_states: t.state.node_states,
                            ..s.state
                        },
                        action_start_time: t.action_start_time,
                        ..s
                    })
                },
            },
        }
    }
}

/// `u` is `t` after finishing the `initPosition` action of `req` with the
/// coordinates `(x, y)` and heading `theta`: the vehicle stands there,
/// localized, on the requested map, in its state and its visualization; its
/// last node is the requested one; the action's first state is finished.
pub open spec fn init_position_finished(
    t: VehicleSimulator,
    u: VehicleSimulator,
    req: InitPositionRequest,
    x: Real32,
    y: Real32,
    theta: Real32,
) -> bool {
    let i = state_index_of(t.state.action_states@, req.action_id@).unwrap();
    let pos = AgvPosition {
        x,
        y,
        position_initialized: true,
        theta,
        map_id: req.map_id,
        deviation_range: None,
        map_description: None,
        localization_score: None,
    };
    &&& u.state.action_states@ == with_status(
        t.state.action_states@,
        i,
        ActionStatus::Finished,
    )
    &&& u == (VehicleSimulator {
        state: State {
            agv_position: Some(pos),
            last_node_id: req.last_node_id,
            action_states: u.state.action_states,
            ..t.state
        },
        visualization: Visualization { agv_position: Some(pos), ..t.visualization },
        ..t
    })
}

/// `u` is `t` after moving the vehicle to `(x, y)` with heading `theta`:
/// where it `arrived` at the node of `req`, the first node and edge states
/// are dropped and that node is the last node reached.
pub open spec fn movement_finished(
    t: VehicleSimulator,
    u: VehicleSimulator,
    req: MoveRequest,
    x: Real32,
    y: Real32,
    theta: Real32,
    arrived: bool,
) -> bool {
    let pos = AgvPosition { x, y, theta, ..t.state.agv_position.unwrap() };
    let s = t.state;
    &&& u.state.node_states@ == if arrived && s.node_states@.len() > 0 {
        s.node_states@.drop_first()
    } else {
        s.node_states@
    }
    &&& u.state.edge_states@ == if arrived && s.edge_states@.len() > 0 {
        s.edge_states@.drop_first()
    } else {
        s.edge_states@
    }
    &&& u.state.last_node_id == if arrived {
        req.next_node_id
    } else {
        s.last_node_id
    }
    &&& u.state.last_node_sequence_id == if arrived {
        req.next_sequence_id
    } else {
        s.last_node_sequence_id
    }
    &&& u == (VehicleSimulator {
        state: State {
            agv_position: Some(pos),
            node_states: u.state.node_states,
            edge_states: u.state.edge_states,
            last_node_id: u.state.last_node_id,
            last_node_sequence_id: u.state.last_node_sequence_id,
            ..s
        },
        visualization: Visualization { agv_position: Some(pos), ..t.visualization },
        ..t
    })
}

/// The index of the first state of the action `id`.
pub fn find_action_state(states: &Vec<ActionState>, id: &String) -> (r: Option<usize>)
    ensures
        index_opt(r) == state_index_of(states@, id@),
{
    let mut i: usize = 0;
    while i < states.len()
        invariant
            i <= states@.len(),
            forall|j: int| 0 <= j < i ==> !has_action_id(id@)(#[trigger] states@[j]),
        decreases states@.len() - i,
    {
        if states[i].action_id == *id {
            proof {
                assert(is_first_index(states@, has_action_id(id@), i as int));
                lemma_first_index_found(states@, has_action_id(id@), i as int);
            }
            return Some(i);
        }
        i = i + 1;
    }
    proof {
        lemma_first_index_none(states@, has_action_id(id@));
    }
    None
}

/// Whether `a` sets the vehicle's position.
fn is_init_position_action(a: &Action) -> (r: bool)
    ensures
        r == is_init_position(*a),
{
    str_equal(a.action_type.as_str(), "initPosition")
}

/// Runs the instant actions as `instant_phase` says.
fn run_instant_phase(states: &mut Vec<ActionState>, actions: &Vec<Action>) -> (r: Option<usize>)
    ensures
        (final(states)@, index_opt(r)) == instant_phase(old(states)@, actions@, 0),
{
    let ghost orig = states@;
    let mut k: usize = 0;
    while k < actions.len()
        invariant
            k <= actions@.len(),
            orig == old(states)@,
            instant_phase(states@, actions@, k as nat) == instant_phase(orig, actions@, 0),
        decreases actions@.len() - k,
    {
        let a = &actions[k];
        match find_action_state(states, &a.action_id) {
            Some(i) => {
                if states[i].action_status == ActionStatus::Waiting {
                    let ghost pre = states@;
                    if is_init_position_action(a) {
                        states[i].action_status = ActionStatus::Running;
                        assert(states@ =~= with_status(pre, i as int, ActionStatus::Running));
                        assert(instant_phase(pre, actions@, k as nat) == (states@, Some(k as int)));
                        return Some(k);
                    } else {
                        states[i].action_status = ActionStatus::Finished;
                    }
                }
            },
            None => {},
        }
        k = k + 1;
    }
    None
}

/// The value of the first parameter with key `key`.
fn find_parameter(params: &Option<Vec<ActionParameter>>, key: &str) -> (r: Option<ActionParameterValue>)
    ensures
        r == match *params {
            Some(ps) => match first_index(ps@, has_key(key@)) {
                Some(i) => Some(ps@[i].value),
                None => None,
            },
            None => None,
        },
{
    match params {
        Some(ps) => {
            let mut i: usize = 0;
            while i < ps.len()
                invariant
                    i <= ps@.len(),
                    *params == Some(*ps),
                    forall|j: int| 0 <= j < i ==> !has_key(key@)(#[trigger] ps@[j]),
                decreases ps@.len() - i,
            {
                if str_equal(ps[i].key.as_str(), key) {
                    proof {
                        assert(is_first_index(ps@, has_key(key@), i as int));
                        lemma_first_index_found(ps@, has_key(key@), i as int);
                    }
                    let v = ps[i].value.clone();
                    assert(v == ps@[i as int].value);
                    return Some(v);
                }
                i = i + 1;
            }
            proof {
                lemma_first_index_none(ps@, has_key(key@));
            }
            None
        },
        None => None,
    }
}

/// The text of a parameter value: a string as it is, anything else empty.
pub fn parameter_string(v: &ActionParameterValue) -> (r: String)
    ensures
        r@ == parameter_text(*v),
{
    match v {
        ActionParameterValue::Str(s) => s.clone(),
        _ => String::new(),
    }
}

/// What finishing the `initPosition` action `a` needs.
fn init_position_request(a: &Action) -> (r: InitPositionRequest)
    requires
        init_parameters_present(*a),
    ensures
        init_request_matches(r, *a),
{
    let x = find_parameter(&a.action_parameters, "x");
    let y = find_parameter(&a.action_parameters, "y");
    let theta = find_parameter(&a.action_parameters, "theta");
    let map_id = find_parameter(&a.action_parameters, "mapId");
    let last_node_id = find_parameter(&a.action_parameters, "lastNodeId");
    InitPositionRequest {
        action_id: a.action_id.clone(),
        x: x.unwrap(),
        y: y.unwrap(),
        theta: theta.unwrap(),
        map_id: parameter_string(&map_id.unwrap()),
        last_node_id: parameter_string(&last_node_id.unwrap()),
    }
}

/// Whether `a` has the parameters that setting the position reads.
fn has_init_parameters(a: &Action) -> (r: bool)
    ensures
        r == init_parameters_present(*a),
{
    find_parameter(&a.action_parameters, "x").is_some() && find_parameter(
        &a.action_parameters,
        "y",
    ).is_some() && find_parameter(&a.action_parameters, "theta").is_some() && find_parameter(
        &a.action_parameters,
        "mapId",
    ).is_some() && find_parameter(&a.action_parameters, "lastNodeId").is_some()
}

/// The index of the first order node with sequence id `seq`.
fn find_order_node(nodes: &Vec<Node>, seq: u64) -> (r: Option<usize>)
    ensures
        index_opt(r) == first_index(nodes@, node_with_sequence(seq)),
{
    let mut i: usize = 0;
    while i < nodes.len()
        invariant
            i <= nodes@.len(),
            forall|j: int| 0 <= j < i ==> !node_with_sequence(seq)(#[trigger] nodes@[j]),
        decreases nodes@.len() - i,
    {
        if nodes[i].sequence_id == seq {
            proof {
                assert(is_first_index(nodes@, node_with_sequence(seq), i as int));
                lemma_first_index_found(nodes@, node_with_sequence(seq), i as int);
            }
            return Some(i);
        }
        i = i + 1;
    }
    proof {
        lemma_first_index_none(nodes@, node_with_sequence(seq));
    }
    None
}

/// The index of the first node state with sequence id `seq`.
fn find_node_state(nodes: &Vec<NodeState>, seq: u64) -> (r: Option<usize>)
    ensures
        index_opt(r) == first_index(nodes@, node_state_with_sequence(seq)),
{
    let mut i: usize = 0;
    while i < nodes.len()
        invariant
            i <= nodes@.len(),
            forall|j: int| 0 <= j < i ==> !node_state_with_sequence(seq)(#[trigger] nodes@[j]),
        decreases nodes@.len() - i,
    {
        if nodes[i].sequence_id == seq {
            proof {
                assert(is_first_index(nodes@, node_state_with_sequence(seq), i as int));
                lemma_first_index_found(nodes@, node_state_with_sequence(seq), i as int);
            }
            return Some(i);
        }
        i = i + 1;
    }
    proof {
        lemma_first_index_none(nodes@, node_state_with_sequence(seq));
    }
    None
}

/// The index of the first edge state with sequence id `seq`.
fn find_edge_state(edges: &Vec<EdgeState>, seq: u64) -> (r: Option<usize>)
    ensures
        index_opt(r) == first_index(edges@, edge_state_with_sequence(seq as int)),
{
    let mut i: usize = 0;
    while i < edges.len()
        invariant
            i <= edges@.len(),
            forall|j: int|
                0 <= j < i ==> !edge_state_with_sequence(seq as int)(#[trigger] edges@[j]),
        decreases edges@.len() - i,
    {
        if edges[i].sequence_id == seq {
            proof {
                assert(is_first_index(edges@, edge_state_with_sequence(seq as int), i as int));
                lemma_first_index_found(edges@, edge_state_with_sequence(seq as int), i as int);
            }
            return Some(i);
        }
        i = i + 1;
    }
    proof {
        lemma_first_index_none(edges@, edge_state_with_sequence(seq as int));
    }
    None
}

/// Runs the node actions as `node_phase` says; tells whether one was run.
fn run_node_phase(states: &mut Vec<ActionState>, checks: &Vec<Action>) -> (r: bool)
    ensures
        (final(states)@, r) == node_phase(old(states)@, checks@),
{
    let mut j: usize = 0;
    while j < checks.len()
        invariant
            j <= checks@.len(),
            states@ == old(states)@,
            forall|m: int| 0 <= m < j ==> !pending_in(states@)(#[trigger] checks@[m]),
        decreases checks@.len() - j,
    {
        match find_action_state(states, &checks[j].action_id) {
            Some(i) => {
                if states[i].action_status == ActionStatus::Waiting {
                    proof {
                        assert(is_first_index(checks@, pending_in(states@), j as int));
                        lemma_first_index_found(checks@, pending_in(states@), j as int);
                    }
                    states[i].action_status = ActionStatus::Finished;
                    assert(states@ =~= with_status(old(states)@, i as int, ActionStatus::Finished));
                    return true;
                }
            },
            None => {},
        }
        j = j + 1;
    }
    proof {
        lemma_first_index_none(checks@, pending_in(states@));
    }
    false
}

impl VehicleSimulator {
    /// The movement part of a step, as `movement_result` says.
    fn movement_step(&mut self) -> (out: TickOutcome)
        requires
            movement_panic_free(old(self).state),
        ensures
            movement_result(old(self).state, final(self).state.node_states@, out),
            *final(self) == (VehicleSimulator {
                state: State { node_states: final(self).state.node_states, ..old(self).state },
                ..*old(self)
            }),
    {
        let vehicle = match &self.state.agv_position {
            Some(p) => p.clone(),
            None => {
                return TickOutcome::Idle;
            },
        };
        let len = self.state.node_states.len();
        if len == 1 {
            self.state.node_states.remove(0);
            assert(self.state.node_states@ =~= Seq::<NodeState>::empty());
            return TickOutcome::Idle;
        }
        if len == 0 {
            return TickOutcome::Idle;
        }
        let index = match find_node_state(&self.state.node_states, self.state.last_node_sequence_id) {
            Some(i) => i,
            None => 0,
        };
        let next = &self.state.node_states[index + 1];
        if !next.released {
            return TickOutcome::Idle;
        }
        let target = match &next.node_position {
            Some(p) => p.clone(),
            None => {
                return TickOutcome::Idle;
            },
        };
        let trajectory = if self.state.edge_states.len() == 0 {
            None
        } else {
            match find_edge_state(&self.state.edge_states, next.sequence_id - 1) {
                Some(e) => clone_trajectory(&self.state.edge_states[e].trajectory),
                None => None,
            }
        };
        TickOutcome::Move(
            MoveRequest {
                vehicle,
                target,
                trajectory,
                next_node_id: next.node_id.clone(),
                next_sequence_id: next.sequence_id,
            },
        )
    }

    /// Whether moving from the current state reads no missing value.
    fn movement_is_panic_free(&self) -> (r: bool)
        ensures
            r == movement_panic_free(self.state),
    {
        if self.state.agv_position.is_none() || self.state.node_states.len() < 2 {
            return true;
        }
        let index = match find_node_state(&self.state.node_states, self.state.last_node_sequence_id) {
            Some(i) => i,
            None => 0,
        };
        if index + 1 >= self.state.node_states.len() {
            return false;
        }
        let next = &self.state.node_states[index + 1];
        if !next.released {
            return true;
        }
        if next.node_position.is_none() {
            return false;
        }
        if self.state.edge_states.len() == 0 {
            return true;
        }
        if next.sequence_id == 0 {
            return false;
        }
        match find_edge_state(&self.state.edge_states, next.sequence_id - 1) {
            Some(e) => self.state.edge_states[e].trajectory.is_some(),
            None => true,
        }
    }

    /// Whether a node action started earlier still runs at `now`.
    fn action_still_running(&self, now: i64) -> (r: bool)
        requires
            gate_in_range(*self),
        ensures
            r == action_gate_closed(*self, now),
    {
        match self.action_start_time {
            Some(t) => now < t + (self.config.settings.action_time as i64),
            None => false,
        }
    }

    /// Whether the end of the running node action is a 64-bit time.
    fn action_end_in_range(&self) -> (r: bool)
        ensures
            r == gate_in_range(*self),
    {
        match self.action_start_time {
            Some(t) => t.checked_add(self.config.settings.action_time as i64).is_some(),
            None => true,
        }
    }

    /// Whether a step at time `now` reads no missing value and computes no
    /// time beyond 64 bits.
    pub fn tick_is_panic_free(&self, now: i64) -> (r: bool)
        ensures
            r == tick_panic_free(*self, now),
    {
        if !self.action_end_in_range() {
            return false;
        }
        if self.action_still_running(now) {
            return true;
        }
        let mut states = self.state.action_states.clone();
        assert(states@ =~= self.state.action_states@);
        let stop = match &self.instant_actions {
            Some(ia) => run_instant_phase(&mut states, &ia.actions),
            None => None,
        };
        proof {
            lemma_instant_phase_stop_in_range(self.state.action_states@, instant_actions_of(*self), 0);
        }
        match stop {
            Some(k) => has_init_parameters(&self.instant_actions.as_ref().unwrap().actions[k]),
            None => {
                if self.order.is_none() {
                    true
                } else {
                    self.movement_is_panic_free()
                }
            },
        }
    }

    /// One step of the simulation at time `now` (seconds since the Unix
    /// epoch), as `tick_relation` says: nothing while a node action runs; then
    /// the waiting instant actions, up to the first `initPosition`; then, with
    /// an order, the first waiting action of the node the vehicle stands on,
    /// in the order of the node's list, which finishes and starts the action
    /// timer; then the movement towards the next released node.
    pub fn tick(&mut self, now: i64) -> (out: TickOutcome)
        requires
            tick_panic_free(*old(self), now),
        ensures
            tick_relation(*old(self), *final(self), now, out),
    {
        if self.action_still_running(now) {
            return TickOutcome::Idle;
        }
        proof {
            lemma_instant_phase_stop_in_range(self.state.action_states@, instant_actions_of(*self), 0);
        }
        let stop = match &self.instant_actions {
            Some(ia) => run_instant_phase(&mut self.state.action_states, &ia.actions),
            None => None,
        };
        if let Some(k) = stop {
            let req = init_position_request(&self.instant_actions.as_ref().unwrap().actions[k]);
            return TickOutcome::InitPosition(req);
        }
        let ghost b = self.state.action_states@;
        match &self.order {
            None => {
                return TickOutcome::Idle;
            },
            Some(order) => {
                match find_order_node(&order.nodes, self.state.last_node_sequence_id) {
                    Some(i) => {
                        let checks = &order.nodes[i].actions;
                        if run_node_phase(&mut self.state.action_states, checks) {
                            self.action_start_time = Some(now);
                        }
                    },
                    None => {
                        proof {
                            lemma_first_index_none(Seq::<Action>::empty(), pending_in(b));
                        }
                    },
                }
            },
        }
        self.movement_step()
    }

    /// One step of the simulation at the current time (seconds since the Unix
    /// epoch, read from the clock). Where the clock gives no time, or the
    /// step would read a missing value, nothing happens and the fault is
    /// returned.
    pub fn state_iterate(&mut self) -> (r: Result<TickOutcome, StepFault>)
        ensures
            match r {
                Ok(out) => exists|now: i64|
                    now >= 0 && tick_relation(*old(self), *final(self), now, out),
                Err(StepFault::MissingValue) => *final(self) == *old(self) && exists|now: i64|
                    now >= 0 && !tick_panic_free(*old(self), now),
                Err(StepFault::ClockUnreadable) => *final(self) == *old(self),
            },
    {
        let now = match unix_seconds_now() {
            Some(t) => t,
            None => {
                return Err(StepFault::ClockUnreadable);
            },
        };
        if self.tick_is_panic_free(now) {
            let ghost s0 = *self;
            let out = self.tick(now);
            assert(tick_relation(s0, *self, now, out));
            Ok(out)
        } else {
            assert(!tick_panic_free(*self, now));
            Err(StepFault::MissingValue)
        }
    }

    /// Finishes an `initPosition` action: the vehicle stands, localized, at
    /// `(x, y)` facing `theta` on the requested map, both in its state and its
    /// visualization; its last node is the requested one; the action's first
    /// state is finished.
    pub fn finish_init_position(&mut self, req: &InitPositionRequest, x: Real32, y: Real32, theta: Real32)
        requires
            state_index_of(old(self).state.action_states@, req.action_id@) is Some,
        ensures
            init_position_finished(*old(self), *final(self), *req, x, y, theta),
            final(self).state.agv_position matches Some(p) && p.x == x && p.y == y && p.theta == theta
                && p.position_initialized && p.map_id == req.map_id,
            final(self).visualization.agv_position == final(self).state.agv_position,
            final(self).state.last_node_id == req.last_node_id,
    {
        let i = find_action_state(&self.state.action_states, &req.action_id).unwrap();
        let pos = AgvPosition {
            x,
            y,
            position_initialized: true,
            theta,
            map_id: req.map_id.clone(),
            deviation_range: None,
            map_description: None,
            localization_score: None,
        };
        self.state.agv_position = Some(pos.clone());
        self.state.last_node_id = req.last_node_id.clone();
        self.visualization.agv_position = Some(pos);
        self.state.action_states[i].action_status = ActionStatus::Finished;
    }

    /// Finishes a movement: the vehicle now stands at `(x, y)` facing `theta`,
    /// both in its state and its visualization. Where it `arrived` at the node
    /// it headed for, the first node state and the first edge state are
    /// dropped and that node becomes the last node reached.
    pub fn finish_movement(&mut self, req: &MoveRequest, x: Real32, y: Real32, theta: Real32, arrived: bool)
        requires
            old(self).state.agv_position is Some,
        ensures
            movement_finished(*old(self), *final(self), *req, x, y, theta, arrived),
            final(self).state.agv_position matches Some(p) && p.x == x && p.y == y && p.theta == theta,
            final(self).visualization.agv_position == final(self).state.agv_position,
    {
        let old_pos = match &self.state.agv_position {
            Some(p) => p.clone(),
            None => {
                return;
            },
        };
        let pos = AgvPosition { x, y, theta, ..old_pos };
        self.state.agv_position = Some(pos.clone());
        self.visualization.agv_position = Some(pos);
        if arrived {
            if !self.state.node_states.is_empty() {
                self.state.node_states.remove(0);
                assert(self.state.node_states@ =~= old(self).state.node_states@.drop_first());
            }
            if !self.state.edge_states.is_empty() {
                self.state.edge_states.remove(0);
                assert(self.state.edge_states@ =~= old(self).state.edge_states@.drop_first());
            }
            self.state.last_node_id = req.next_node_id.clone();
            self.state.last_node_sequence_id = req.next_sequence_id;
        }
    }
}

}
