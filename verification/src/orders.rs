//! Whether the vehicle takes on an order, and what taking it on does to its state.
use vstd::prelude::*;

use crate::action::Action;
use crate::common::{clone_trajectory, trajectory_view, AgvPosition, NodePosition};
use crate::order::{Edge, Node, Order};
use crate::search::{first_index, index_opt, is_first_index, lemma_first_index_found,
    lemma_first_index_none};
use crate::simulator::VehicleSimulator;
use crate::state::{ActionState, ActionStatus, EdgeState, NodeState, State};
use crate::utils::{decimal, push_decimal};

verus! {

/// Why an order was turned down.
#[derive(Clone, Copy, PartialEq, Eq, Structural, Debug)]
pub enum OrderRejection {
    /// Some node of the current order is not released, and the vehicle does
    /// not stand at the first node it still has to traverse.
    NotAtReleasedNode,
    /// The vehicle is too far from the first released node of its current order.
    TooFarFromReleasedNode,
    /// A new order arrived while node or edge states remain, or while the
    /// vehicle's position is not initialized.
    ActiveNodesOrEdges,
    /// An update of the current order does not carry a greater update id.
    UpdateIdNotNewer,
}

/// The text that reports a rejection.
pub open spec fn rejection_text(r: OrderRejection) -> Seq<char> {
    match r {
        OrderRejection::NotAtReleasedNode => "Vehicle has not arrived at the latest released node"@,
        OrderRejection::TooFarFromReleasedNode => "Vehicle is not close enough to last released node"@,
        OrderRejection::ActiveNodesOrEdges => "There is order_state or edge_state in state"@,
        OrderRejection::UpdateIdNotNewer => "Order update id is lower"@,
    }
}

impl OrderRejection {
    /// The text that reports the rejection.
    pub fn reason(&self) -> (r: String)
        ensures
            r@ == rejection_text(*self),
    {
        match self {
            OrderRejection::NotAtReleasedNode => String::from_str(
                "Vehicle has not arrived at the latest released node",
            ),
            OrderRejection::TooFarFromReleasedNode => String::from_str(
                "Vehicle is not close enough to last released node",
            ),
            OrderRejection::ActiveNodesOrEdges => String::from_str(
                "There is order_state or edge_state in state",
            ),
            OrderRejection::UpdateIdNotNewer => String::from_str("Order update id is lower"),
        }
    }

    /// The message that reports the rejection of an order with update id
    /// `order_update_id`: the reason, then the update id.
    pub fn message(&self, order_update_id: u64) -> (r: String)
        ensures
            r@ == rejection_message(*self, order_update_id),
    {
        let mut r = self.reason();
        r.append(" (orderUpdateId: ");
        push_decimal(&mut r, order_update_id);
        r.append(")");
        r
    }
}

/// The message that reports the rejection of an order with update id
/// `order_update_id`, e.g. "Order update id is lower (orderUpdateId: 3)".
pub open spec fn rejection_message(r: OrderRejection, order_update_id: u64) -> Seq<char> {
    rejection_text(r) + " (orderUpdateId: "@ + decimal(order_update_id as nat) + ")"@
}

/// The answer to an order.
#[derive(Debug)]
pub enum OrderDecision {
    /// The order was taken on; the vehicle worked on `previous_order_id` before.
    Accepted { previous_order_id: String },
    /// The order, with update id `order_update_id`, was turned down, and
    /// nothing changed.
    Rejected { reason: OrderRejection, order_update_id: u64 },
}

/// The vehicle position and node position whose distance decides whether the
/// vehicle is close enough to its first released node.
#[derive(Debug)]
pub struct DistanceCheck {
    /// Position of the vehicle.
    pub vehicle: AgvPosition,
    /// Position of the first released node.
    pub node: NodePosition,
}

/// Selects released node states.
pub open spec fn is_released() -> spec_fn(NodeState) -> bool {
    |n: NodeState| n.released
}

/// Some node state is not released.
pub open spec fn has_unreleased_nodes(s: State) -> bool {
    exists|i: int| 0 <= i < s.node_states@.len() && !(#[trigger] s.node_states@[i]).released
}

/// The vehicle has not yet reached the node it has to traverse first, while
/// part of its order is still unreleased.
pub open spec fn not_at_released_node(s: State) -> bool {
    has_unreleased_nodes(s) && s.node_states@[0].sequence_id != s.last_node_sequence_id
}

/// The positions to compare before an order is taken on: those of the vehicle
/// and of its first released node, where both are known.
pub open spec fn distance_check_of(s: State) -> Option<(AgvPosition, NodePosition)> {
    match first_index(s.node_states@, is_released()) {
        Some(i) => match (s.node_states@[i].node_position, s.agv_position) {
            (Some(np), Some(vp)) => Some((vp, np)),
            _ => None,
        },
        None => None,
    }
}

/// The vehicle knows where it is.
pub open spec fn position_initialized(s: State) -> bool {
    match s.agv_position {
        Some(p) => p.position_initialized,
        None => false,
    }
}

/// Why an order is turned down, if it is; `too_far` tells whether the
/// positions of `distance_check_of(s)` are more than 0.1 m apart.
pub open spec fn order_rejection(s: State, order: Order, too_far: bool) -> Option<OrderRejection> {
    let far = distance_check_of(s) is Some && too_far;
    if order.order_id@ != s.order_id@ {
        if not_at_released_node(s) {
            Some(OrderRejection::NotAtReleasedNode)
        } else if far {
            Some(OrderRejection::TooFarFromReleasedNode)
        } else if s.node_states@.len() == 0 && s.edge_states@.len() == 0 && position_initialized(s) {
            None
        } else {
            Some(OrderRejection::ActiveNodesOrEdges)
        }
    } else if order.order_update_id > s.order_update_id {
        if not_at_released_node(s) {
            Some(OrderRejection::NotAtReleasedNode)
        } else if far {
            Some(OrderRejection::TooFarFromReleasedNode)
        } else {
            None
        }
    } else {
        Some(OrderRejection::UpdateIdNotNewer)
    }
}

/// The state of a node of an accepted order.
pub open spec fn node_state_of(n: Node) -> NodeState {
    NodeState {
        node_id: n.node_id,
        sequence_id: n.sequence_id,
        released: n.released,
        node_description: n.node_description,
        node_position: n.node_position,
    }
}

/// `es` is the state of the edge `e` of an accepted order.
pub open spec fn edge_state_matches(es: EdgeState, e: Edge) -> bool {
    &&& es.edge_id == e.edge_id
    &&& es.sequence_id == e.sequence_id
    &&& es.released == e.released
    &&& es.edge_description == e.edge_description
    &&& trajectory_view(es.trajectory) == trajectory_view(e.trajectory)
}

/// The state of an action of an accepted order.
pub open spec fn order_action_state(a: Action) -> ActionState {
    ActionState {
        action_id: a.action_id,
        action_type: Some(a.action_type),
        action_description: a.action_description,
        action_status: ActionStatus::Waiting,
        result_description: None,
    }
}

/// The states of a list of actions of an accepted order.
pub open spec fn action_states_of(actions: Seq<Action>) -> Seq<ActionState> {
    actions.map_values(|a: Action| order_action_state(a))
}

/// The states of the actions of `nodes`, node after node.
pub open spec fn node_action_states(nodes: Seq<Node>) -> Seq<ActionState>
    decreases nodes.len(),
{
    if nodes.len() == 0 {
        Seq::empty()
    } else {
        node_action_states(nodes.drop_last()) + action_states_of(nodes.last().actions@)
    }
}

/// The states of the actions of `edges`, edge after edge.
pub open spec fn edge_action_states(edges: Seq<Edge>) -> Seq<ActionState>
    decreases edges.len(),
{
    if edges.len() == 0 {
        Seq::empty()
    } else {
        edge_action_states(edges.drop_last()) + action_states_of(edges.last().actions@)
    }
}

/// The action states of an accepted order: those of its node actions, node
/// after node, then those of its edge actions, edge after edge; all waiting.
pub open spec fn order_action_states(order: Order) -> Seq<ActionState> {
    node_action_states(order.nodes@) + edge_action_states(order.edges@)
}

/// `new` is `old` after taking on `order`.
pub open spec fn order_taken_on(old: VehicleSimulator, new: VehicleSimulator, order: Order) -> bool {
    &&& new.order == Some(order)
    &&& new.state.order_id == order.order_id
    &&& new.state.order_update_id == order.order_update_id
    &&& new.state.last_node_sequence_id == if order.order_update_id == 0 {
        0
    } else {
        old.state.last_node_sequence_id
    }
    &&& new.state.node_states@ == order.nodes@.map_values(|n: Node| node_state_of(n))
    &&& new.state.edge_states@.len() == order.edges@.len()
    &&& forall|i: int|
        0 <= i < order.edges@.len() ==> edge_state_matches(
            #[trigger] new.state.edge_states@[i],
            order.edges@[i],
        )
    &&& new.state.action_states@ == order_action_states(order)
    &&& new.state == (State {
        order_id: new.state.order_id,
        order_update_id: new.state.order_update_id,
        last_node_sequence_id: new.state.last_node_sequence_id,
        node_states: new.state.node_states,
        edge_states: new.state.edge_states,
        action_states: new.state.action_states,
        ..old.state
    })
    &&& new == (VehicleSimulator { state: new.state, order: new.order, ..old })
}

/// Appends the states of `actions` to `states`.
fn push_action_states(states: &mut Vec<ActionState>, actions: &Vec<Action>)
    ensures
        final(states)@ == old(states)@ + action_states_of(actions@),
{
    let ghost start = states@;
    let mut j: usize = 0;
    while j < actions.len()
        invariant
            j <= actions@.len(),
            states@ == start + action_states_of(actions@.take(j as int)),
        decreases actions@.len() - j,
    {
        let a = &actions[j];
        states.push(
            ActionState {
                action_id: a.action_id.clone(),
                action_type: Some(a.action_type.clone()),
                action_description: a.action_description.clone(),
                action_status: ActionStatus::Waiting,
                result_description: None,
            },
        );
        proof {
            assert(actions@.take(j + 1) =~= actions@.take(j as int).push(actions@[j as int]));
            assert(action_states_of(actions@.take(j + 1)) =~= action_states_of(
                actions@.take(j as int),
            ).push(order_action_state(actions@[j as int])));
            assert(states@ =~= start + action_states_of(actions@.take(j + 1)));
        }
        j = j + 1;
    }
    assert(actions@.take(j as int) =~= actions@);
}

impl VehicleSimulator {
    /// Takes on `order_request`: it becomes the vehicle's order, its id and
    /// update id become those of the state (the last node's sequence id goes
    /// back to zero for an update id of zero), and its nodes, edges and
    /// actions replace the node, edge and action states.
    pub fn order_accept(&mut self, order_request: Order)
        ensures
            order_taken_on(*old(self), *final(self), order_request),
    {
        let mut node_states: Vec<NodeState> = Vec::new();
        let mut action_states: Vec<ActionState> = Vec::new();
        let nodes = &order_request.nodes;
        let mut i: usize = 0;
        while i < nodes.len()
            invariant
                i <= nodes@.len(),
                node_states@ == nodes@.take(i as int).map_values(|n: Node| node_state_of(n)),
                action_states@ == node_action_states(nodes@.take(i as int)),
            decreases nodes@.len() - i,
        {
            let node = &nodes[i];
            node_states.push(
                NodeState {
                    node_id: node.node_id.clone(),
                    sequence_id: node.sequence_id,
                    released: node.released,
                    node_description: node.node_description.clone(),
                    node_position: node.node_position.clone(),
                },
            );
            push_action_states(&mut action_states, &node.actions);
            proof {
                let t = nodes@.take(i + 1);
                assert(t.drop_last() =~= nodes@.take(i as int));
                assert(t.last() == nodes@[i as int]);
                assert(t =~= nodes@.take(i as int).push(nodes@[i as int]));
                assert(node_states@ =~= t.map_values(|n: Node| node_state_of(n)));
            }
            i = i + 1;
        }
        assert(nodes@.take(i as int) =~= nodes@);
        let ghost node_part = action_states@;
        let mut edge_states: Vec<EdgeState> = Vec::new();
        let edges = &order_request.edges;
        let mut k: usize = 0;
        while k < edges.len()
            invariant
                k <= edges@.len(),
                node_part == node_action_states(nodes@),
                edge_states@.len() == k,
                forall|m: int|
                    0 <= m < k ==> edge_state_matches(#[trigger] edge_states@[m], edges@[m]),
                action_states@ == node_part + edge_action_states(edges@.take(k as int)),
            decreases edges@.len() - k,
        {
            let edge = &edges[k];
            edge_states.push(
                EdgeState {
                    edge_id: edge.edge_id.clone(),
                    sequence_id: edge.sequence_id,
                    released: edge.released,
                    edge_description: edge.edge_description.clone(),
                    trajectory: clone_trajectory(&edge.trajectory),
                },
            );
            push_action_states(&mut action_states, &edge.actions);
            proof {
                let t = edges@.take(k + 1);
                assert(t.drop_last() =~= edges@.take(k as int));
                assert(t.last() == edges@[k as int]);
                assert(action_states@ =~= node_part + edge_action_states(t));
            }
            k = k + 1;
        }
        assert(edges@.take(k as int) =~= edges@);
        self.state.order_id = order_request.order_id.clone();
        self.state.order_update_id = order_request.order_update_id;
        if self.state.order_update_id == 0 {
            self.state.last_node_sequence_id = 0;
        }
        self.state.action_states = action_states;
        self.state.node_states = node_states;
        self.state.edge_states = edge_states;
        self.order = Some(order_request);
    }

    /// Whether some node state is not released.
    fn has_unreleased_nodes(&self) -> (r: bool)
        ensures
            r == has_unreleased_nodes(self.state),
    {
        let mut i: usize = 0;
        while i < self.state.node_states.len()
            invariant
                i <= self.state.node_states@.len(),
                forall|j: int| 0 <= j < i ==> (#[trigger] self.state.node_states@[j]).released,
            decreases self.state.node_states@.len() - i,
        {
            if !self.state.node_states[i].released {
                return true;
            }
            i = i + 1;
        }
        false
    }

    /// Whether the vehicle has not yet reached the node it has to traverse
    /// first, while part of its order is still unreleased.
    fn not_at_released_node(&self) -> (r: bool)
        ensures
            r == not_at_released_node(self.state),
    {
        self.has_unreleased_nodes() && self.state.node_states[0].sequence_id
            != self.state.last_node_sequence_id
    }

    /// The index of the first released node state.
    fn first_released_node(&self) -> (r: Option<usize>)
        ensures
            index_opt(r) == first_index(self.state.node_states@, is_released()),
    {
        let mut i: usize = 0;
        while i < self.state.node_states.len()
            invariant
                i <= self.state.node_states@.len(),
                forall|j: int| 0 <= j < i ==> !(#[trigger] self.state.node_states@[j]).released,
            decreases self.state.node_states@.len() - i,
        {
            if self.state.node_states[i].released {
                proof {
                    assert(is_first_index(self.state.node_states@, is_released(), i as int));
                    lemma_first_index_found(self.state.node_states@, is_released(), i as int);
                }
                return Some(i);
            }
            i = i + 1;
        }
        proof {
            lemma_first_index_none(self.state.node_states@, is_released());
        }
        None
    }

    /// The positions whose distance decides, before an order is taken on,
    /// whether the vehicle is close enough to its first released node: those
    /// of the vehicle and of that node, where both are known.
    pub fn released_node_distance_check(&self) -> (r: Option<DistanceCheck>)
        ensures
            match r {
                Some(c) => distance_check_of(self.state) == Some((c.vehicle, c.node)),
                None => distance_check_of(self.state) is None,
            },
    {
        match self.first_released_node() {
            Some(i) => match (&self.state.node_states[i].node_position, &self.state.agv_position) {
                (Some(np), Some(vp)) => Some(DistanceCheck { vehicle: vp.clone(), node: np.clone() }),
                _ => None,
            },
            None => None,
        }
    }

    /// Answers an order. `too_far` tells whether the two positions of
    /// `released_node_distance_check` are more than 0.1 m apart; it is not read
    /// where that check yields nothing.
    ///
    /// A new order (another order id) is taken on when the vehicle stands at
    /// its released nodes, is close enough to the first of them, has no node
    /// or edge state left and knows its position. An update of the current
    /// order is taken on when its update id is greater and the vehicle stands
    /// at its released nodes close enough to the first. A rejected order
    /// changes nothing.
    pub fn order_accept_procedure(&mut self, order_request: Order, too_far: bool) -> (r:
        OrderDecision)
        ensures
            match order_rejection(old(self).state, order_request, too_far) {
                Some(reason) => r == (OrderDecision::Rejected {
                    reason,
                    order_update_id: order_request.order_update_id,
                }) && *final(self) == *old(self),
                None => r == (OrderDecision::Accepted {
                    previous_order_id: old(self).state.order_id,
                }) && order_taken_on(*old(self), *final(self), order_request),
            },
            order_request.order_id@ != old(self).state.order_id@ && old(self).state.node_states@.len()
                == 0 && old(self).state.edge_states@.len() == 0 && position_initialized(old(self).state)
                ==> r is Accepted,
    {
        let far = match self.released_node_distance_check() {
            Some(_) => too_far,
            None => false,
        };
        let rejection = if order_request.order_id != self.state.order_id {
            if self.not_at_released_node() {
                Some(OrderRejection::NotAtReleasedNode)
            } else if far {
                Some(OrderRejection::TooFarFromReleasedNode)
            } else if self.state.node_states.len() == 0 && self.state.edge_states.len() == 0
                && match &self.state.agv_position {
                Some(p) => p.position_initialized,
                None => false,
            } {
                None
            } else {
                Some(OrderRejection::ActiveNodesOrEdges)
            }
        } else if order_request.order_update_id > self.state.order_update_id {
            if self.not_at_released_node() {
                Some(OrderRejection::NotAtReleasedNode)
            } else if far {
                Some(OrderRejection::TooFarFromReleasedNode)
            } else {
                None
            }
        } else {
            Some(OrderRejection::UpdateIdNotNewer)
        };
        match rejection {
            Some(reason) => OrderDecision::Rejected {
                reason,
                order_update_id: order_request.order_update_id,
            },
            None => {
                let previous_order_id = self.state.order_id.clone();
                self.state.action_states = Vec::new();
                self.order_accept(order_request);
                OrderDecision::Accepted { previous_order_id }
            },
        }
    }
}

}
