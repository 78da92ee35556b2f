//! Properties of the vehicle that hold across its operations.
use vstd::prelude::*;

use crate::action::Action;
use crate::common::{trajectory_view, Real32};
use crate::iteration::{
    has_action_id, init_position_finished, instant_actions_of, instant_phase, is_init_position,
    is_pending, movement_finished, node_phase, pending_in, state_index_of, tick_relation, with_status,
    InitPositionRequest, MoveRequest, TickOutcome,
};
use crate::order::Order;
use crate::orders::{
    action_states_of, edge_action_states, edge_state_matches, node_action_states, order_action_states,
    is_released, order_rejection, order_taken_on, position_initialized, OrderRejection,
};
use crate::config::Config;
use crate::iteration::{edge_state_with_sequence, next_node};
use crate::search::{
    first_index, is_first_index, lemma_first_index_found, lemma_first_index_none,
    lemma_first_index_properties,
};
use crate::simulator::{is_vehicle_at, VehicleSimulator};
use crate::state::{ActionState, ActionStatus, EdgeState, OperatingMode, State};

verus! {

/// `b` is `a`, or `a` waited and `b` is `a` finished.
pub open spec fn finished_or_same(a: ActionState, b: ActionState) -> bool {
    ||| b == a
    ||| a.action_status == ActionStatus::Waiting && b == (ActionState {
        action_status: ActionStatus::Finished,
        ..a
    })
}

/// `b` holds the actions of `a`, each the same or, where it waited, finished.
pub open spec fn actions_finished_or_same(a: Seq<ActionState>, b: Seq<ActionState>) -> bool {
    &&& a.len() == b.len()
    &&& forall|i: int| 0 <= i < a.len() ==> finished_or_same(a[i], #[trigger] b[i])
}

proof fn lemma_finished_or_same_transitive(a: Seq<ActionState>, b: Seq<ActionState>, c: Seq<ActionState>)
    requires
        actions_finished_or_same(a, b),
        actions_finished_or_same(b, c),
    ensures
        actions_finished_or_same(a, c),
{
    assert forall|i: int| 0 <= i < a.len() implies finished_or_same(a[i], #[trigger] c[i]) by {
        assert(finished_or_same(a[i], b[i]));
        assert(finished_or_same(b[i], c[i]));
    }
}

/// Finishing a waiting state finishes it and keeps the others.
proof fn lemma_finish_waiting(a: Seq<ActionState>, i: int)
    requires
        0 <= i < a.len(),
        a[i].action_status == ActionStatus::Waiting,
    ensures
        actions_finished_or_same(a, with_status(a, i, ActionStatus::Finished)),
{
    let b = with_status(a, i, ActionStatus::Finished);
    assert forall|j: int| 0 <= j < a.len() implies finished_or_same(a[j], #[trigger] b[j]) by {
        if j != i {
            assert(b[j] == a[j]);
        }
    }
}

/// The first state of an action is found at the same place in two lists of
/// action states that hold the same actions at the same places.
proof fn lemma_same_ids_same_index(a: Seq<ActionState>, b: Seq<ActionState>, id: Seq<char>)
    requires
        a.len() == b.len(),
        forall|i: int| 0 <= i < a.len() ==> (#[trigger] a[i]).action_id == b[i].action_id,
    ensures
        state_index_of(a, id) == state_index_of(b, id),
{
    lemma_first_index_properties(a, has_action_id(id));
    lemma_first_index_properties(b, has_action_id(id));
    match state_index_of(a, id) {
        Some(i) => {
            assert(a[i].action_id == b[i].action_id);
            assert(crate::search::is_first_index(b, has_action_id(id), i)) by {
                assert forall|j: int| 0 <= j < i implies !has_action_id(id)(#[trigger] b[j]) by {
                    assert(a[j].action_id == b[j].action_id);
                }
            }
            crate::search::lemma_first_index_found(b, has_action_id(id), i);
        },
        None => {
            assert forall|j: int| 0 <= j < b.len() implies !has_action_id(id)(#[trigger] b[j]) by {
                assert(a[j].action_id == b[j].action_id);
            }
            crate::search::lemma_first_index_none(b, has_action_id(id));
        },
    }
}

/// The first state of a pending action waits, at an index of the list.
proof fn lemma_pending_index(states: Seq<ActionState>, a: Action)
    requires
        is_pending(states, a),
    ensures
        state_index_of(states, a.action_id@) matches Some(i) && 0 <= i < states.len()
            && states[i].action_status == ActionStatus::Waiting,
{
    lemma_first_index_properties(states, has_action_id(a.action_id@));
}

/// What the instant actions do to the action states: they finish some waiting
/// ones (`c`) and, where they stop at an `initPosition` action, set its first
/// state, which waited, running.
proof fn lemma_instant_phase_shape(states: Seq<ActionState>, actions: Seq<Action>, k: nat) -> (c: Seq<
    ActionState,
>)
    ensures
        actions_finished_or_same(states, c),
        ({
            let (b, stop) = instant_phase(states, actions, k);
            match stop {
                None => b == c,
                Some(j) => k <= j < actions.len() && (state_index_of(c, actions[j].action_id@) matches Some(
                    i,
                ) && 0 <= i < c.len() && c[i].action_status == ActionStatus::Waiting && b == with_status(
                    c,
                    i,
                    ActionStatus::Running,
                )),
            }
        }),
    decreases actions.len() - k,
{
    if k >= actions.len() {
        assert(actions_finished_or_same(states, states));
        states
    } else {
        let a = actions[k as int];
        if is_pending(states, a) {
            lemma_pending_index(states, a);
            let i = state_index_of(states, a.action_id@).unwrap();
            if is_init_position(a) {
                assert(actions_finished_or_same(states, states));
                states
            } else {
                let f = with_status(states, i, ActionStatus::Finished);
                lemma_finish_waiting(states, i);
                let c = lemma_instant_phase_shape(f, actions, (k + 1) as nat);
                lemma_finished_or_same_transitive(states, f, c);
                c
            }
        } else {
            lemma_instant_phase_shape(states, actions, (k + 1) as nat)
        }
    }
}

/// The node actions finish at most one waiting state.
proof fn lemma_node_phase_shape(states: Seq<ActionState>, checks: Seq<Action>)
    ensures
        actions_finished_or_same(states, node_phase(states, checks).0),
{
    lemma_first_index_properties(checks, pending_in(states));
    match first_index(checks, pending_in(states)) {
        Some(k) => {
            assert(pending_in(states)(checks[k]));
            lemma_pending_index(states, checks[k]);
            lemma_finish_waiting(states, state_index_of(states, checks[k].action_id@).unwrap());
        },
        None => {
            assert(actions_finished_or_same(states, states));
        },
    }
}

/// What a whole simulation step keeps: the order, the instant actions, the
/// settings, the connection, the topics, the order ids, the header ids and
/// timestamps of state and visualization; and its actions only move from
/// waiting to finished.
pub open spec fn step_keeps(s: VehicleSimulator, u: VehicleSimulator) -> bool {
    &&& u.order == s.order
    &&& u.instant_actions == s.instant_actions
    &&& u.config == s.config
    &&& u.connection == s.connection
    &&& u.connection_topic == s.connection_topic
    &&& u.state_topic == s.state_topic
    &&& u.visualization_topic == s.visualization_topic
    &&& u.state.order_id == s.state.order_id
    &&& u.state.order_update_id == s.state.order_update_id
    &&& u.state.header_id == s.state.header_id
    &&& u.state.timestamp == s.state.timestamp
    &&& u.visualization.header_id == s.visualization.header_id
    &&& u.visualization.timestamp == s.visualization.timestamp
    &&& actions_finished_or_same(s.state.action_states@, u.state.action_states@)
}

/// Parts of a step one after the other keep what each keeps.
pub proof fn lemma_step_keeps_transitive(s: VehicleSimulator, t: VehicleSimulator, u: VehicleSimulator)
    requires
        step_keeps(s, t),
        step_keeps(t, u),
    ensures
        step_keeps(s, u),
{
    lemma_finished_or_same_transitive(s.state.action_states@, t.state.action_states@, u.state.action_states@);
}

/// A step that asks for no `initPosition` action keeps what a step keeps,
/// and its node states stay as they were or none remains.
pub proof fn lemma_tick_keeps(s: VehicleSimulator, t: VehicleSimulator, now: i64, out: TickOutcome)
    requires
        tick_relation(s, t, now, out),
        !(out is InitPosition),
    ensures
        step_keeps(s, t),
        t.state.node_states@ == s.state.node_states@ || t.state.node_states@.len() == 0,
{
    let a0 = s.state.action_states@;
    if !crate::iteration::action_gate_closed(s, now) {
        let (b, stop) = instant_phase(a0, instant_actions_of(s), 0);
        let c = lemma_instant_phase_shape(a0, instant_actions_of(s), 0);
        if let Some(order) = s.order {
            let checks = crate::iteration::order_check_actions(order, s.state.last_node_sequence_id);
            lemma_node_phase_shape(b, checks);
            lemma_finished_or_same_transitive(a0, b, node_phase(b, checks).0);
        }
    } else {
        assert(actions_finished_or_same(a0, a0));
    }
}

/// A step that asks for an `initPosition` action, followed by finishing that
/// action, keeps what a step keeps: the action goes from waiting to finished.
pub proof fn lemma_init_position_step_keeps(
    s: VehicleSimulator,
    t: VehicleSimulator,
    u: VehicleSimulator,
    now: i64,
    req: InitPositionRequest,
    x: Real32,
    y: Real32,
    theta: Real32,
)
    requires
        tick_relation(s, t, now, TickOutcome::InitPosition(req)),
        init_position_finished(t, u, req, x, y, theta),
    ensures
        step_keeps(s, u),
{
    let a0 = s.state.action_states@;
    let acts = instant_actions_of(s);
    let (b, stop) = instant_phase(a0, acts, 0);
    let c = lemma_instant_phase_shape(a0, acts, 0);
    let k = stop.unwrap();
    let i = state_index_of(c, acts[k].action_id@).unwrap();
    assert(b == with_status(c, i, ActionStatus::Running));
    lemma_same_ids_same_index(c, b, req.action_id@);
    let f = with_status(c, i, ActionStatus::Finished);
    assert(u.state.action_states@ =~= f);
    lemma_finish_waiting(c, i);
    lemma_finished_or_same_transitive(a0, c, f);
}

/// Finishing a movement keeps what a step keeps.
pub proof fn lemma_movement_step_keeps(
    t: VehicleSimulator,
    u: VehicleSimulator,
    req: MoveRequest,
    x: Real32,
    y: Real32,
    theta: Real32,
    arrived: bool,
)
    requires
        movement_finished(t, u, req, x, y, theta, arrived),
    ensures
        step_keeps(t, u),
{
    assert(actions_finished_or_same(t.state.action_states@, u.state.action_states@));
}

/// A step that asks for an `initPosition` action leaves that action running,
/// so that `finish_init_position` can always finish it.
pub proof fn lemma_init_position_request_can_finish(
    s: VehicleSimulator,
    t: VehicleSimulator,
    now: i64,
    req: InitPositionRequest,
)
    requires
        tick_relation(s, t, now, TickOutcome::InitPosition(req)),
    ensures
        state_index_of(t.state.action_states@, req.action_id@) matches Some(i) && 0 <= i
            < t.state.action_states@.len() && t.state.action_states@[i].action_status
            == ActionStatus::Running,
{
    let a0 = s.state.action_states@;
    let acts = instant_actions_of(s);
    let (b, stop) = instant_phase(a0, acts, 0);
    let c = lemma_instant_phase_shape(a0, acts, 0);
    let k = stop.unwrap();
    let i = state_index_of(c, acts[k].action_id@).unwrap();
    lemma_same_ids_same_index(c, b, req.action_id@);
}

/// An update of the current order whose update id is not greater is turned
/// down, whatever else holds.
pub proof fn lemma_stale_update_rejected(s: State, order: Order, too_far: bool)
    requires
        order.order_id@ == s.order_id@,
        order.order_update_id <= s.order_update_id,
    ensures
        order_rejection(s, order, too_far) == Some(OrderRejection::UpdateIdNotNewer),
{
}

/// A new order is taken on only by a vehicle that knows its position and has
/// no node or edge state left.
pub proof fn lemma_new_order_needs_idle_localized_vehicle(s: State, order: Order, too_far: bool)
    requires
        order.order_id@ != s.order_id@,
        order_rejection(s, order, too_far) is None,
    ensures
        position_initialized(s),
        s.node_states@.len() == 0,
        s.edge_states@.len() == 0,
{
}

/// A new order is taken on by every vehicle that knows its position and has
/// no node or edge state left, whatever order it worked on before and
/// whatever the distance check would say.
pub proof fn lemma_idle_localized_vehicle_takes_new_order(s: State, order: Order, too_far: bool)
    requires
        order.order_id@ != s.order_id@,
        s.node_states@.len() == 0,
        s.edge_states@.len() == 0,
        position_initialized(s),
    ensures
        order_rejection(s, order, too_far) is None,
{
    lemma_first_index_none(s.node_states@, is_released());
}

/// Finishing an `initPosition` action puts the vehicle exactly at the given
/// coordinates and heading, localized, on the requested map, in its state and
/// its visualization, and makes the requested node its last node.
pub proof fn lemma_init_position_sets_pose(
    t: VehicleSimulator,
    u: VehicleSimulator,
    req: InitPositionRequest,
    x: Real32,
    y: Real32,
    theta: Real32,
)
    requires
        init_position_finished(t, u, req, x, y, theta),
    ensures
        u.state.agv_position matches Some(p) && p.x == x && p.y == y && p.theta == theta
            && p.position_initialized && p.map_id == req.map_id,
        u.visualization.agv_position == u.state.agv_position,
        u.state.last_node_id == req.last_node_id,
{
}

/// Finishing a movement to `(x, y)` with heading `theta` puts the vehicle
/// exactly there, in its state and its visualization, wherever it stood
/// before and whether or not it arrived.
pub proof fn lemma_movement_sets_pose(
    t: VehicleSimulator,
    u: VehicleSimulator,
    req: MoveRequest,
    x: Real32,
    y: Real32,
    theta: Real32,
    arrived: bool,
)
    requires
        movement_finished(t, u, req, x, y, theta, arrived),
    ensures
        u.state.agv_position matches Some(p) && p.x == x && p.y == y && p.theta == theta,
        u.visualization.agv_position == u.state.agv_position,
{
}

/// A step that asks to move does so from where the vehicle stands, and along
/// the trajectory of the first edge state of the state it starts from whose
/// sequence id is one less than that of the node it heads for; with no such
/// edge state it asks for no trajectory.
pub proof fn lemma_move_follows_edge_trajectory(s: VehicleSimulator, t: VehicleSimulator, now: i64, m: MoveRequest)
    requires
        tick_relation(s, t, now, TickOutcome::Move(m)),
    ensures
        s.state.agv_position == Some(m.vehicle),
        forall|e: int|
            0 <= e < s.state.edge_states@.len() && #[trigger] s.state.edge_states@[e].sequence_id
                == m.next_sequence_id - 1 && (forall|j: int|
                0 <= j < e ==> s.state.edge_states@[j].sequence_id != m.next_sequence_id - 1)
                ==> trajectory_view(m.trajectory) == trajectory_view(s.state.edge_states@[e].trajectory),
        (forall|e: int|
            0 <= e < s.state.edge_states@.len() ==> #[trigger] s.state.edge_states@[e].sequence_id
                != m.next_sequence_id - 1) ==> m.trajectory is None,
{
    let edges = s.state.edge_states@;
    let p = edge_state_with_sequence(m.next_sequence_id - 1);
    assert(m.next_sequence_id == next_node(s.state).sequence_id);
    if edges.len() > 0 {
        lemma_first_index_properties(edges, p);
        assert forall|e: int|
            0 <= e < edges.len() && #[trigger] edges[e].sequence_id == m.next_sequence_id - 1 && (
            forall|j: int| 0 <= j < e ==> edges[j].sequence_id != m.next_sequence_id - 1)
            implies trajectory_view(m.trajectory) == trajectory_view(edges[e].trajectory) by {
            assert forall|j: int| 0 <= j < e implies !p(#[trigger] edges[j]) by {
                assert(edges[j].sequence_id != m.next_sequence_id - 1);
            }
            assert(is_first_index(edges, p, e));
            lemma_first_index_found(edges, p, e);
        }
        if forall|e: int| 0 <= e < edges.len() ==> #[trigger] edges[e].sequence_id != m.next_sequence_id - 1 {
            assert forall|j: int| 0 <= j < edges.len() implies !p(#[trigger] edges[j]) by {
                assert(edges[j].sequence_id != m.next_sequence_id - 1);
            }
            lemma_first_index_none(edges, p);
        }
    }
}

/// A new vehicle reports that it runs in automatic mode: the master control
/// is in control of it.
pub proof fn lemma_new_vehicle_is_automatic(r: VehicleSimulator, config: Config, x: Real32, y: Real32)
    requires
        is_vehicle_at(r, config, x, y),
    ensures
        r.state.operating_mode == OperatingMode::Automatic,
{
}

proof fn lemma_states_of_waiting(actions: Seq<crate::action::Action>)
    ensures
        forall|i: int|
            0 <= i < action_states_of(actions).len() ==> (#[trigger] action_states_of(
                actions,
            )[i]).action_status == ActionStatus::Waiting,
{
}

proof fn lemma_node_states_waiting(nodes: Seq<crate::order::Node>)
    ensures
        forall|i: int|
            0 <= i < node_action_states(nodes).len() ==> (#[trigger] node_action_states(
                nodes,
            )[i]).action_status == ActionStatus::Waiting,
    decreases nodes.len(),
{
    if nodes.len() > 0 {
        lemma_node_states_waiting(nodes.drop_last());
        lemma_states_of_waiting(nodes.last().actions@);
        let p = node_action_states(nodes.drop_last());
        let q = action_states_of(nodes.last().actions@);
        assert forall|i: int| 0 <= i < (p + q).len() implies (#[trigger] (p + q)[i]).action_status
            == ActionStatus::Waiting by {
            if i < p.len() {
                assert((p + q)[i] == p[i]);
            } else {
                assert((p + q)[i] == q[i - p.len()]);
            }
        }
    }
}

proof fn lemma_edge_states_waiting(edges: Seq<crate::order::Edge>)
    ensures
        forall|i: int|
            0 <= i < edge_action_states(edges).len() ==> (#[trigger] edge_action_states(
                edges,
            )[i]).action_status == ActionStatus::Waiting,
    decreases edges.len(),
{
    if edges.len() > 0 {
        lemma_edge_states_waiting(edges.drop_last());
        lemma_states_of_waiting(edges.last().actions@);
        let p = edge_action_states(edges.drop_last());
        let q = action_states_of(edges.last().actions@);
        assert forall|i: int| 0 <= i < (p + q).len() implies (#[trigger] (p + q)[i]).action_status
            == ActionStatus::Waiting by {
            if i < p.len() {
                assert((p + q)[i] == p[i]);
            } else {
                assert((p + q)[i] == q[i - p.len()]);
            }
        }
    }
}

/// Every action of an order that has just been taken on waits.
pub proof fn lemma_accepted_order_actions_wait(order: Order)
    ensures
        forall|i: int|
            0 <= i < order_action_states(order).len() ==> (#[trigger] order_action_states(
                order,
            )[i]).action_status == ActionStatus::Waiting,
{
    lemma_node_states_waiting(order.nodes@);
    lemma_edge_states_waiting(order.edges@);
    let p = node_action_states(order.nodes@);
    let q = edge_action_states(order.edges@);
    assert forall|i: int| 0 <= i < (p + q).len() implies (#[trigger] (p + q)[i]).action_status
        == ActionStatus::Waiting by {
        if i < p.len() {
            assert((p + q)[i] == p[i]);
        } else {
            assert((p + q)[i] == q[i - p.len()]);
        }
    }
}

/// `f` and `e` are the same edge state, trajectories compared by what they hold.
pub open spec fn edge_states_agree(e: EdgeState, f: EdgeState) -> bool {
    &&& f.edge_id == e.edge_id
    &&& f.sequence_id == e.sequence_id
    &&& f.released == e.released
    &&& f.edge_description == e.edge_description
    &&& trajectory_view(f.trajectory) == trajectory_view(e.trajectory)
}

/// `b` agrees with `a`: the same node and action states, edge states that
/// agree one by one, and the same values everywhere else.
pub open spec fn simulators_agree(a: VehicleSimulator, b: VehicleSimulator) -> bool {
    &&& b.state.node_states@ == a.state.node_states@
    &&& b.state.action_states@ == a.state.action_states@
    &&& b.state.edge_states@.len() == a.state.edge_states@.len()
    &&& forall|i: int|
        0 <= i < a.state.edge_states@.len() ==> edge_states_agree(
            a.state.edge_states@[i],
            #[trigger] b.state.edge_states@[i],
        )
    &&& b == (VehicleSimulator {
        state: State {
            node_states: b.state.node_states,
            edge_states: b.state.edge_states,
            action_states: b.state.action_states,
            ..a.state
        },
        ..a
    })
}

/// Taking on the same order twice has the effect of taking it on once.
pub proof fn lemma_order_accept_idempotent(
    s0: VehicleSimulator,
    s1: VehicleSimulator,
    s2: VehicleSimulator,
    order: Order,
)
    requires
        order_taken_on(s0, s1, order),
        order_taken_on(s1, s2, order),
    ensures
        simulators_agree(s1, s2),
{
    assert forall|i: int| 0 <= i < s1.state.edge_states@.len() implies edge_states_agree(
        s1.state.edge_states@[i],
        #[trigger] s2.state.edge_states@[i],
    ) by {
        assert(edge_state_matches(s1.state.edge_states@[i], order.edges@[i]));
        assert(edge_state_matches(s2.state.edge_states@[i], order.edges@[i]));
    }
}

}
