use vda5050_sim::action::{Action, ActionParameter, ActionParameterValue, BlockingType};
use vda5050_sim::common::{NodePosition, Real32};
use vda5050_sim::config::{Config, MqttBroker, Settings, VehicleSettings};
use vda5050_sim::connection::ConnectionState;
use vda5050_sim::instant_actions::InstantActions;
use vda5050_sim::iteration::{parameter_string, StepFault, TickOutcome};
use vda5050_sim::order::{Edge, Node, Order};
use vda5050_sim::orders::{OrderDecision, OrderRejection};
use vda5050_sim::simulator::VehicleSimulator;
use vda5050_sim::state::ActionStatus;

fn r32(v: f32) -> Real32 {
    Real32 { bits: v.to_bits() }
}

fn config() -> Config {
    Config {
        mqtt_broker: MqttBroker {
            host: "localhost".to_string(),
            port: "1883".to_string(),
            vda_interface: "uagv".to_string(),
        },
        vehicle: VehicleSettings {
            serial_number: "S1".to_string(),
            manufacturer: "KIT".to_string(),
            vda_version: "v2".to_string(),
            vda_full_version: "2.0.0".to_string(),
        },
        settings: Settings {
            map_id: "map".to_string(),
            action_time: 2,
            speed: r32(0.5),
            robot_count: 1,
            state_frequency: 1,
            visualization_frequency: 10,
        },
    }
}

fn param(key: &str, value: ActionParameterValue) -> ActionParameter {
    ActionParameter { key: key.to_string(), value }
}

fn action(id: &str, action_type: &str, params: Option<Vec<ActionParameter>>) -> Action {
    Action {
        action_type: action_type.to_string(),
        action_id: id.to_string(),
        action_description: Some(format!("{} description", id)),
        blocking_type: BlockingType::Hard,
        action_parameters: params,
    }
}

fn init_position_action(id: &str) -> Action {
    action(
        id,
        "initPosition",
        Some(vec![
            param("x", ActionParameterValue::Float(r32(1.5))),
            param("y", ActionParameterValue::Str("2.5".to_string())),
            param("theta", ActionParameterValue::Bool(true)),
            param("mapId", ActionParameterValue::Str("hall".to_string())),
            param("lastNodeId", ActionParameterValue::Str("n0".to_string())),
        ]),
    )
}

fn instant(actions: Vec<Action>) -> InstantActions {
    InstantActions {
        header_id: 1,
        timestamp: "t".to_string(),
        version: "2.0.0".to_string(),
        manufacturer: "KIT".to_string(),
        serial_number: "S1".to_string(),
        actions,
    }
}

fn node(id: &str, seq: u64, released: bool, x: f32, actions: Vec<Action>) -> Node {
    Node {
        node_id: id.to_string(),
        sequence_id: seq,
        node_description: None,
        released,
        node_position: Some(NodePosition {
            x: r32(x),
            y: r32(0.0),
            theta: None,
            allowed_deviation_x_y: None,
            allowed_deviation_theta: None,
            map_id: "hall".to_string(),
            map_description: None,
        }),
        actions,
    }
}

fn edge(id: &str, seq: u64, actions: Vec<Action>) -> Edge {
    Edge {
        edge_id: id.to_string(),
        sequence_id: seq,
        edge_description: None,
        released: true,
        start_node_id: "a".to_string(),
        end_node_id: "b".to_string(),
        max_speed: None,
        max_height: None,
        min_height: None,
        orientation: None,
        orientation_type: None,
        direction: None,
        rotation_allowed: None,
        max_rotation_speed: None,
        length: None,
        trajectory: None,
        actions,
    }
}

fn order(id: &str, update: u64, nodes: Vec<Node>, edges: Vec<Edge>) -> Order {
    Order {
        header_id: 1,
        timestamp: "t".to_string(),
        version: "2.0.0".to_string(),
        manufacturer: "KIT".to_string(),
        serial_number: "S1".to_string(),
        order_id: id.to_string(),
        order_update_id: update,
        zone_set_id: None,
        nodes,
        edges,
    }
}

/// A vehicle whose position has been set by an initPosition instant action.
fn localized_vehicle() -> VehicleSimulator {
    let mut sim = VehicleSimulator::new(config(), r32(0.0), r32(0.0)).unwrap();
    sim.instant_actions_accept_procedure(instant(vec![init_position_action("ip")]));
    match sim.tick(0) {
        TickOutcome::InitPosition(req) => sim.finish_init_position(&req, r32(1.5), r32(2.5), r32(0.0)),
        _ => panic!("expected an initPosition request"),
    }
    sim
}

#[test]
fn new_vehicle_is_described_by_its_config() {
    let sim = VehicleSimulator::new(config(), r32(1.0), r32(-2.0)).unwrap();
    assert_eq!(sim.connection_topic, "uagv/v2/KIT/S1/connection");
    assert_eq!(sim.state_topic, "uagv/v2/KIT/S1/state");
    assert_eq!(sim.visualization_topic, "uagv/v2/KIT/S1/visualization");
    assert_eq!(sim.connection.connection_state, ConnectionState::ConnectionBroken);
    assert_eq!(sim.state.header_id, 0);
    assert_eq!(sim.state.version, "2.0.0");
    assert_eq!(f32::from_bits(sim.state.battery_state.battery_charge.bits), 100.0);
    let pos = sim.state.agv_position.as_ref().unwrap();
    assert_eq!(f32::from_bits(pos.x.bits), 1.0);
    assert_eq!(f32::from_bits(pos.y.bits), -2.0);
    assert_eq!(f32::from_bits(pos.theta.bits), 0.0);
    assert!(!pos.position_initialized);
    assert_eq!(pos.map_id, "map");
    assert_eq!(sim.visualization.agv_position.as_ref().unwrap().map_id, "map");
    assert!(sim.order.is_none());
    assert_eq!(sim.state.timestamp.len(), 23);
    assert!(sim.state.timestamp.ends_with('Z'));
    assert_eq!(&sim.state.timestamp[19..20], ".");
}

#[test]
fn new_at_carries_the_given_timestamps() {
    let sim = VehicleSimulator::new_at(
        config(),
        r32(3.0),
        r32(4.0),
        "2024-05-01T10:00:00.00Z".to_string(),
        "2024-05-01T10:00:00.01Z".to_string(),
        "2024-05-01T10:00:00.02Z".to_string(),
    );
    assert_eq!(sim.connection.timestamp, "2024-05-01T10:00:00.00Z");
    assert_eq!(sim.state.timestamp, "2024-05-01T10:00:00.01Z");
    assert_eq!(sim.visualization.timestamp, "2024-05-01T10:00:00.02Z");
    assert_eq!(sim.state_topic, "uagv/v2/KIT/S1/state");
    assert_eq!(sim.connection.connection_state, ConnectionState::ConnectionBroken);
    let pos = sim.visualization.agv_position.as_ref().unwrap();
    assert_eq!(f32::from_bits(pos.x.bits), 3.0);
    assert_eq!(f32::from_bits(pos.y.bits), 4.0);
    assert!(!pos.position_initialized);
}

#[test]
fn header_ids_go_up_by_one() {
    let mut sim = VehicleSimulator::new(config(), r32(0.0), r32(0.0)).unwrap();
    sim.stamp_state("2024-01-01T00:00:00.000Z".to_string());
    sim.stamp_state("2024-01-01T00:00:01.000Z".to_string());
    assert_eq!(sim.state.header_id, 2);
    assert_eq!(sim.state.timestamp, "2024-01-01T00:00:01.000Z");
    assert!(sim.next_visualization_message());
    assert_eq!(sim.visualization.header_id, 1);
    assert!(sim.next_connection_message());
    assert_eq!(sim.connection.timestamp.len(), 23);
    assert!(sim.connection.timestamp.ends_with('Z'));
    assert_eq!(sim.connection.header_id, 1);
    assert_eq!(sim.connection.connection_state, ConnectionState::Online);
}

#[test]
fn instant_actions_wait_after_existing_states() {
    let mut sim = VehicleSimulator::new(config(), r32(0.0), r32(0.0)).unwrap();
    sim.instant_actions_accept_procedure(instant(vec![action("a", "beep", None)]));
    sim.instant_actions_accept_procedure(instant(vec![action("b", "pick", None), action("c", "drop", None)]));
    let ids: Vec<&str> = sim.state.action_states.iter().map(|s| s.action_id.as_str()).collect();
    assert_eq!(ids, vec!["a", "b", "c"]);
    assert!(sim.state.action_states.iter().all(|s| s.action_status == ActionStatus::Waiting));
    assert_eq!(sim.state.action_states[1].action_type.as_deref(), Some("pick"));
    assert!(sim.state.action_states[1].action_description.is_none());
    assert_eq!(sim.instant_actions.as_ref().unwrap().actions.len(), 2);
}

#[test]
fn new_order_rejected_before_localization() {
    let mut sim = VehicleSimulator::new(config(), r32(0.0), r32(0.0)).unwrap();
    let o = order("o1", 0, vec![node("n0", 0, true, 0.0, vec![])], vec![]);
    match sim.order_accept_procedure(o, false) {
        OrderDecision::Rejected { reason: r, order_update_id } => {
            assert_eq!(r, OrderRejection::ActiveNodesOrEdges);
            assert_eq!(r.reason(), "There is order_state or edge_state in state");
            assert_eq!(order_update_id, 0);
        }
        _ => panic!("expected a rejection"),
    }
    assert!(sim.order.is_none());
    assert_eq!(sim.state.node_states.len(), 0);
}

#[test]
fn init_position_sets_position_and_finishes_action() {
    let sim = localized_vehicle();
    let pos = sim.state.agv_position.as_ref().unwrap();
    assert!(pos.position_initialized);
    assert_eq!(f32::from_bits(pos.x.bits), 1.5);
    assert_eq!(f32::from_bits(pos.y.bits), 2.5);
    assert_eq!(pos.map_id, "hall");
    assert_eq!(sim.state.last_node_id, "n0");
    assert_eq!(sim.state.action_states[0].action_status, ActionStatus::Finished);
    assert_eq!(sim.visualization.agv_position.as_ref().unwrap().map_id, "hall");
}

#[test]
fn init_position_request_carries_raw_parameters() {
    let mut sim = VehicleSimulator::new(config(), r32(0.0), r32(0.0)).unwrap();
    sim.instant_actions_accept_procedure(instant(vec![action("a", "beep", None), init_position_action("ip")]));
    match sim.tick(0) {
        TickOutcome::InitPosition(req) => {
            assert_eq!(req.action_id, "ip");
            assert!(matches!(req.x, ActionParameterValue::Float(r) if f32::from_bits(r.bits) == 1.5));
            assert!(matches!(req.y, ActionParameterValue::Str(ref s) if s == "2.5"));
            assert!(matches!(req.theta, ActionParameterValue::Bool(true)));
            assert_eq!(req.map_id, "hall");
            assert_eq!(req.last_node_id, "n0");
        }
        _ => panic!("expected an initPosition request"),
    }
    // the plain action ran to its end, the initPosition one is running
    assert_eq!(sim.state.action_states[0].action_status, ActionStatus::Finished);
    assert_eq!(sim.state.action_states[1].action_status, ActionStatus::Running);
}

#[test]
fn parameter_string_of_non_string_is_empty() {
    assert_eq!(parameter_string(&ActionParameterValue::Str("m".to_string())), "m");
    assert_eq!(parameter_string(&ActionParameterValue::Bool(false)), "");
    assert_eq!(parameter_string(&ActionParameterValue::Float(r32(1.0))), "");
}

#[test]
fn accepted_order_fills_states_in_order() {
    let mut sim = localized_vehicle();
    let o = order(
        "o1",
        0,
        vec![
            node("n0", 0, true, 0.0, vec![action("a1", "pick", None)]),
            node("n1", 2, true, 1.0, vec![action("a2", "drop", None), action("a3", "beep", None)]),
        ],
        vec![edge("e1", 1, vec![action("a4", "honk", None)])],
    );
    match sim.order_accept_procedure(o, false) {
        OrderDecision::Accepted { previous_order_id } => assert_eq!(previous_order_id, ""),
        _ => panic!("expected acceptance"),
    }
    assert_eq!(sim.state.order_id, "o1");
    let ids: Vec<&str> = sim.state.action_states.iter().map(|s| s.action_id.as_str()).collect();
    assert_eq!(ids, vec!["a1", "a2", "a3", "a4"]);
    assert!(sim.state.action_states.iter().all(|s| s.action_status == ActionStatus::Waiting));
    assert_eq!(sim.state.action_states[0].action_description.as_deref(), Some("a1 description"));
    let nodes: Vec<&str> = sim.state.node_states.iter().map(|n| n.node_id.as_str()).collect();
    assert_eq!(nodes, vec!["n0", "n1"]);
    assert_eq!(sim.state.edge_states.len(), 1);
    assert_eq!(sim.state.edge_states[0].edge_id, "e1");
    assert_eq!(sim.state.last_node_sequence_id, 0);
}

#[test]
fn stale_update_rejected_and_nothing_changes() {
    let mut sim = localized_vehicle();
    let o = order("o1", 3, vec![node("n0", 0, true, 0.0, vec![])], vec![]);
    assert!(matches!(sim.order_accept_procedure(o, false), OrderDecision::Accepted { .. }));
    let update = order("o1", 3, vec![node("n9", 0, true, 0.0, vec![])], vec![]);
    match sim.order_accept_procedure(update, false) {
        OrderDecision::Rejected { reason: r, order_update_id } => {
            assert_eq!(r, OrderRejection::UpdateIdNotNewer);
            assert_eq!(r.reason(), "Order update id is lower");
            assert_eq!(order_update_id, 3);
            assert_eq!(r.message(order_update_id), "Order update id is lower (orderUpdateId: 3)");
        }
        _ => panic!("expected a rejection"),
    }
    assert_eq!(sim.state.node_states[0].node_id, "n0");
    let newer = order("o1", 4, vec![node("n0", 0, true, 0.0, vec![]), node("n1", 2, true, 1.0, vec![])], vec![]);
    assert!(matches!(sim.order_accept_procedure(newer, false), OrderDecision::Accepted { .. }));
    assert_eq!(sim.state.order_update_id, 4);
    assert_eq!(sim.state.node_states.len(), 2);
}

#[test]
fn far_vehicle_rejects_new_order() {
    let mut sim = localized_vehicle();
    let o = order("o1", 0, vec![node("n0", 0, true, 0.0, vec![])], vec![]);
    assert!(matches!(sim.order_accept_procedure(o, false), OrderDecision::Accepted { .. }));
    let check = sim.released_node_distance_check().unwrap();
    assert_eq!(f32::from_bits(check.vehicle.x.bits), 1.5);
    assert_eq!(f32::from_bits(check.node.x.bits), 0.0);
    let update = order("o1", 1, vec![node("n0", 0, true, 0.0, vec![])], vec![]);
    match sim.order_accept_procedure(update, true) {
        OrderDecision::Rejected { reason: r, order_update_id } => {
            assert_eq!(r, OrderRejection::TooFarFromReleasedNode);
            assert_eq!(r.reason(), "Vehicle is not close enough to last released node");
            assert_eq!(order_update_id, 1);
        }
        _ => panic!("expected a rejection"),
    }
}

#[test]
fn unreleased_nodes_require_arrival() {
    let mut sim = localized_vehicle();
    let o = order("o1", 0, vec![node("n0", 4, true, 0.0, vec![]), node("n1", 6, false, 1.0, vec![])], vec![]);
    assert!(matches!(sim.order_accept_procedure(o, false), OrderDecision::Accepted { .. }));
    // the last node reached has sequence id 0, the first node state 4
    let update = order("o1", 1, vec![node("n0", 4, true, 0.0, vec![])], vec![]);
    match sim.order_accept_procedure(update, false) {
        OrderDecision::Rejected { reason: r, order_update_id } => {
            assert_eq!(r, OrderRejection::NotAtReleasedNode);
            assert_eq!(r.reason(), "Vehicle has not arrived at the latest released node");
            assert_eq!(order_update_id, 1);
        }
        _ => panic!("expected a rejection"),
    }
}

#[test]
fn node_actions_finish_and_hold_the_vehicle() {
    let mut sim = localized_vehicle();
    let o = order(
        "o1",
        0,
        vec![node("n0", 0, true, 0.0, vec![action("a1", "pick", None)]), node("n1", 2, true, 1.0, vec![])],
        vec![edge("e1", 1, vec![])],
    );
    assert!(matches!(sim.order_accept_procedure(o, false), OrderDecision::Accepted { .. }));
    let out = sim.tick(100);
    assert_eq!(sim.state.action_states[0].action_status, ActionStatus::Finished);
    assert_eq!(sim.action_start_time, Some(100));
    match out {
        TickOutcome::Move(m) => {
            assert_eq!(m.next_node_id, "n1");
            assert_eq!(m.next_sequence_id, 2);
            assert_eq!(f32::from_bits(m.target.x.bits), 1.0);
            assert!(m.trajectory.is_none());
        }
        _ => panic!("expected a move"),
    }
    // the action timer (2 s) holds the next steps
    assert!(matches!(sim.tick(101), TickOutcome::Idle));
    assert!(matches!(sim.tick(102), TickOutcome::Move(_)));
}

#[test]
fn node_actions_run_in_list_order_one_per_step() {
    let mut sim = localized_vehicle();
    let o = order(
        "o1",
        0,
        vec![
            node("n0", 0, true, 0.0, vec![action("a1", "pick", None), action("a2", "drop", None)]),
            node("n1", 2, false, 1.0, vec![]),
        ],
        vec![],
    );
    assert!(matches!(sim.order_accept_procedure(o, false), OrderDecision::Accepted { .. }));
    assert!(matches!(sim.tick(100), TickOutcome::Idle));
    assert_eq!(sim.state.action_states[0].action_status, ActionStatus::Finished);
    assert_eq!(sim.state.action_states[1].action_status, ActionStatus::Waiting);
    assert_eq!(sim.action_start_time, Some(100));
    // held by the action timer
    assert!(matches!(sim.tick(101), TickOutcome::Idle));
    assert_eq!(sim.state.action_states[1].action_status, ActionStatus::Waiting);
    assert!(matches!(sim.tick(102), TickOutcome::Idle));
    assert_eq!(sim.state.action_states[1].action_status, ActionStatus::Finished);
    assert_eq!(sim.action_start_time, Some(102));
    // nothing more to run: the timer is not restarted
    assert!(matches!(sim.tick(104), TickOutcome::Idle));
    assert_eq!(sim.action_start_time, Some(102));
}

#[test]
fn arrival_drops_first_node_and_edge() {
    let mut sim = localized_vehicle();
    let o = order(
        "o1",
        0,
        vec![node("n0", 0, true, 0.0, vec![]), node("n1", 2, true, 1.0, vec![])],
        vec![edge("e1", 1, vec![])],
    );
    assert!(matches!(sim.order_accept_procedure(o, false), OrderDecision::Accepted { .. }));
    let m = match sim.tick(0) {
        TickOutcome::Move(m) => m,
        _ => panic!("expected a move"),
    };
    sim.finish_movement(&m, r32(0.5), r32(0.0), r32(0.0), false);
    assert_eq!(sim.state.node_states.len(), 2);
    assert_eq!(f32::from_bits(sim.state.agv_position.as_ref().unwrap().x.bits), 0.5);
    assert_eq!(f32::from_bits(sim.visualization.agv_position.as_ref().unwrap().x.bits), 0.5);
    sim.finish_movement(&m, r32(1.0), r32(0.0), r32(0.0), true);
    assert_eq!(sim.state.node_states.len(), 1);
    assert_eq!(sim.state.node_states[0].node_id, "n1");
    assert_eq!(sim.state.edge_states.len(), 0);
    assert_eq!(sim.state.last_node_id, "n1");
    assert_eq!(sim.state.last_node_sequence_id, 2);
    // the single remaining node is dropped on the next step
    assert!(matches!(sim.tick(0), TickOutcome::Idle));
    assert_eq!(sim.state.node_states.len(), 0);
}

#[test]
fn unreleased_next_node_stops_the_vehicle() {
    let mut sim = localized_vehicle();
    let o = order("o1", 0, vec![node("n0", 0, true, 0.0, vec![]), node("n1", 2, false, 1.0, vec![])], vec![]);
    assert!(matches!(sim.order_accept_procedure(o, false), OrderDecision::Accepted { .. }));
    assert!(matches!(sim.tick(0), TickOutcome::Idle));
    assert_eq!(sim.state.node_states.len(), 2);
}

#[test]
fn missing_init_parameters_make_no_step() {
    let mut sim = VehicleSimulator::new(config(), r32(0.0), r32(0.0)).unwrap();
    sim.instant_actions_accept_procedure(instant(vec![action("ip", "initPosition", None)]));
    assert!(!sim.tick_is_panic_free(0));
    assert_eq!(sim.state_iterate().err(), Some(StepFault::MissingValue));
    assert_eq!(sim.state.action_states[0].action_status, ActionStatus::Waiting);
}

#[test]
fn state_iterate_runs_a_step() {
    let mut sim = VehicleSimulator::new(config(), r32(0.0), r32(0.0)).unwrap();
    sim.instant_actions_accept_procedure(instant(vec![action("a", "beep", None)]));
    assert!(matches!(sim.state_iterate(), Ok(TickOutcome::Idle)));
    assert_eq!(sim.state.action_states[0].action_status, ActionStatus::Finished);
}

#[test]
fn robots_are_numbered_from_one() {
    let c = config();
    assert_eq!(c.for_robot(0).vehicle.serial_number, "S11");
    assert_eq!(c.for_robot(11).vehicle.serial_number, "S112");
    assert_eq!(c.for_robot(4294967293).vehicle.serial_number, "S14294967294");
    assert_eq!(c.for_robot(3).vehicle.manufacturer, "KIT");
    assert_eq!(c.for_robot(3).settings.map_id, "map");
}

#[test]
fn rejection_reasons() {
    assert_eq!(OrderRejection::NotAtReleasedNode.reason(), "Vehicle has not arrived at the latest released node");
    assert_eq!(OrderRejection::TooFarFromReleasedNode.reason(), "Vehicle is not close enough to last released node");
    assert_eq!(OrderRejection::ActiveNodesOrEdges.reason(), "There is order_state or edge_state in state");
    assert_eq!(OrderRejection::UpdateIdNotNewer.reason(), "Order update id is lower");
}

#[test]
fn order_update_keeps_last_node_sequence() {
    let mut sim = localized_vehicle();
    let o = order("o1", 0, vec![node("n0", 0, true, 0.0, vec![]), node("n1", 2, true, 1.0, vec![])], vec![edge("e1", 1, vec![])]);
    assert!(matches!(sim.order_accept_procedure(o, false), OrderDecision::Accepted { .. }));
    let m = match sim.tick(0) {
        TickOutcome::Move(m) => m,
        _ => panic!("expected a move"),
    };
    sim.finish_movement(&m, r32(1.0), r32(0.0), r32(0.0), true);
    assert_eq!(sim.state.last_node_sequence_id, 2);
    let update = order("o1", 1, vec![node("n1", 2, true, 1.0, vec![]), node("n2", 4, true, 2.0, vec![])], vec![edge("e2", 3, vec![])]);
    match sim.order_accept_procedure(update, false) {
        OrderDecision::Accepted { previous_order_id } => assert_eq!(previous_order_id, "o1"),
        _ => panic!("expected acceptance"),
    }
    assert_eq!(sim.state.last_node_sequence_id, 2);
    assert_eq!(sim.state.order_update_id, 1);
    match sim.tick(0) {
        TickOutcome::Move(m) => assert_eq!(m.next_node_id, "n2"),
        _ => panic!("expected a move"),
    }
}

#[test]
fn waiting_vehicle_does_nothing() {
    let mut sim = localized_vehicle();
    sim.action_start_time = Some(1000);
    sim.instant_actions_accept_procedure(instant(vec![action("b", "beep", None)]));
    assert!(matches!(sim.tick(1001), TickOutcome::Idle));
    assert_eq!(sim.state.action_states[1].action_status, ActionStatus::Waiting);
    assert!(matches!(sim.tick(1002), TickOutcome::Idle));
    assert_eq!(sim.state.action_states[1].action_status, ActionStatus::Finished);
}

#[test]
fn finished_actions_stay_finished() {
    let mut sim = localized_vehicle();
    // a second initPosition with the same id finds its state finished and is not run again
    sim.instant_actions_accept_procedure(instant(vec![init_position_action("ip")]));
    assert!(matches!(sim.tick(0), TickOutcome::Idle));
    assert_eq!(sim.state.action_states[0].action_status, ActionStatus::Finished);
    assert_eq!(sim.state.action_states[1].action_status, ActionStatus::Waiting);
    assert_eq!(sim.state.action_states.len(), 2);
}

#[test]
fn rejection_message_names_the_update_id() {
    assert_eq!(
        OrderRejection::ActiveNodesOrEdges.message(12),
        "There is order_state or edge_state in state (orderUpdateId: 12)"
    );
    assert_eq!(
        OrderRejection::NotAtReleasedNode.message(0),
        "Vehicle has not arrived at the latest released node (orderUpdateId: 0)"
    );
    assert_eq!(
        OrderRejection::UpdateIdNotNewer.message(18446744073709551615),
        "Order update id is lower (orderUpdateId: 18446744073709551615)"
    );
}
