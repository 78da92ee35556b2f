//! The simulated vehicle: its messages, its topics and how it is set up.
use vstd::prelude::*;

use crate::action::Action;
use crate::common::{AgvPosition, Real32};
use crate::config::Config;
use crate::connection::{Connection, ConnectionState};
use crate::instant_actions::InstantActions;
use crate::order::Order;
use crate::state::{ActionState, ActionStatus, BatteryState, EStop, OperatingMode, SafetyState, State};
use crate::topics::{base_topic_of, sub_topic, vda_base_topic};
use crate::utils::{get_timestamp, is_protocol_timestamp};
use crate::visualization::Visualization;

verus! {

/// A simulated vehicle: the messages it publishes, the order and instant
/// actions it has received, and its settings.
pub struct VehicleSimulator {
    /// Topic of the connection messages.
    pub connection_topic: String,
    /// The connection message.
    pub connection: Connection,
    /// Topic of the state messages.
    pub state_topic: String,
    /// The state message.
    pub state: State,
    /// Topic of the visualization messages.
    pub visualization_topic: String,
    /// The visualization message.
    pub visualization: Visualization,
    /// The order the vehicle works on, if it has accepted one.
    pub order: Option<Order>,
    /// The instant actions received last.
    pub instant_actions: Option<InstantActions>,
    /// Settings of the vehicle.
    pub config: Config,
    /// When the last node action was started, in seconds since the Unix epoch.
    pub action_start_time: Option<i64>,
}

/// The position at which a vehicle starts: `(x, y)` on the configured map,
/// facing along the x axis, not yet localized.
pub open spec fn initial_position(config: Config, x: Real32, y: Real32) -> AgvPosition {
    AgvPosition {
        x,
        y,
        position_initialized: false,
        theta: Real32 { bits: 0 },
        map_id: config.settings.map_id,
        deviation_range: None,
        map_description: None,
        localization_score: None,
    }
}

/// Bit pattern of the single-precision real 100.0.
pub const FULL_CHARGE_BITS: u32 = 0x42c8_0000;

/// The state a vehicle starts with, apart from its timestamp.
pub open spec fn is_initial_state(s: State, config: Config, x: Real32, y: Real32) -> bool {
    &&& s.header_id == 0
    &&& s.version == config.vehicle.vda_full_version
    &&& s.manufacturer == config.vehicle.manufacturer
    &&& s.serial_number == config.vehicle.serial_number
    &&& !s.driving
    &&& s.distance_since_last_node is None
    &&& s.operating_mode == OperatingMode::Automatic
    &&& s.node_states@.len() == 0
    &&& s.edge_states@.len() == 0
    &&& s.last_node_id@ == Seq::<char>::empty()
    &&& s.order_id@ == Seq::<char>::empty()
    &&& s.order_update_id == 0
    &&& s.last_node_sequence_id == 0
    &&& s.action_states@.len() == 0
    &&& s.information@.len() == 0
    &&& s.loads@.len() == 0
    &&& s.errors@.len() == 0
    &&& s.battery_state == BatteryState {
        battery_charge: Real32 { bits: FULL_CHARGE_BITS },
        battery_voltage: None,
        battery_health: None,
        charging: false,
        reach: None,
    }
    &&& s.safety_state == SafetyState { e_stop: EStop::NoStop, field_violation: false }
    &&& s.paused is None
    &&& s.new_base_request is None
    &&& s.agv_position == Some(initial_position(config, x, y))
    &&& s.velocity is None
    &&& s.zone_set_id is None
}

/// `r` is a vehicle as `config` describes it, standing at `(x, y)`, whose
/// three messages carry protocol timestamps.
pub open spec fn is_new_vehicle(r: VehicleSimulator, config: Config, x: Real32, y: Real32) -> bool {
    &&& is_vehicle_at(r, config, x, y)
    &&& is_protocol_timestamp(r.connection.timestamp@)
    &&& is_protocol_timestamp(r.state.timestamp@)
    &&& is_protocol_timestamp(r.visualization.timestamp@)
}

/// `r` is a vehicle as `config` describes it, standing at `(x, y)`, in all
/// but the timestamps of its messages: its connection is reported broken, it
/// has no order and no action, its battery is full and its position is not
/// yet initialized.
pub open spec fn is_vehicle_at(r: VehicleSimulator, config: Config, x: Real32, y: Real32) -> bool {
    &&& r.connection_topic@ == config_base_topic(config) + seq!['/'] + "connection"@
    &&& r.state_topic@ == config_base_topic(config) + seq!['/'] + "state"@
    &&& r.visualization_topic@ == config_base_topic(config) + seq!['/'] + "visualization"@
    &&& r.connection.header_id == 0
    &&& r.connection.version == config.vehicle.vda_full_version
    &&& r.connection.manufacturer == config.vehicle.manufacturer
    &&& r.connection.serial_number == config.vehicle.serial_number
    &&& r.connection.connection_state == ConnectionState::ConnectionBroken
    &&& is_initial_state(r.state, config, x, y)
    &&& r.visualization.header_id == 0
    &&& r.visualization.version == config.vehicle.vda_full_version
    &&& r.visualization.manufacturer == config.vehicle.manufacturer
    &&& r.visualization.serial_number == config.vehicle.serial_number
    &&& r.visualization.agv_position == Some(initial_position(config, x, y))
    &&& r.visualization.velocity is None
    &&& r.order is None
    &&& r.instant_actions is None
    &&& r.action_start_time is None
    &&& r.config == config
}

/// The base topic of the vehicle that `config` describes.
pub open spec fn config_base_topic(config: Config) -> Seq<char> {
    base_topic_of(
        config.mqtt_broker.vda_interface@,
        config.vehicle.vda_version@,
        config.vehicle.manufacturer@,
        config.vehicle.serial_number@,
    )
}

/// The state of an instant action when it is received.
pub open spec fn instant_action_state(a: Action) -> ActionState {
    ActionState {
        action_id: a.action_id,
        action_type: Some(a.action_type),
        action_description: None,
        action_status: ActionStatus::Waiting,
        result_description: None,
    }
}

impl VehicleSimulator {
    /// A vehicle as `config` describes it, standing at `(random_x, random_y)`:
    /// its connection is reported broken until it goes online, it has no order
    /// and no action, its battery is full and its position is not yet
    /// initialized. Its connection, state and visualization messages carry the
    /// three timestamps given.
    pub fn new_at(
        config: Config,
        random_x: Real32,
        random_y: Real32,
        connection_time: String,
        state_time: String,
        visualization_time: String,
    ) -> (r: VehicleSimulator)
        ensures
            is_vehicle_at(r, config, random_x, random_y),
            r.connection.timestamp == connection_time,
            r.state.timestamp == state_time,
            r.visualization.timestamp == visualization_time,
            r.state.operating_mode == OperatingMode::Automatic,
            r.connection.connection_state == ConnectionState::ConnectionBroken,
            !r.state.driving,
            r.order is None,
    {
        let base_topic = vda_base_topic(
            config.mqtt_broker.vda_interface.as_str(),
            config.vehicle.vda_version.as_str(),
            config.vehicle.manufacturer.as_str(),
            config.vehicle.serial_number.as_str(),
        );
        let connection_topic = sub_topic(base_topic.as_str(), "connection");
        let connection = Connection {
            header_id: 0,
            timestamp: connection_time,
            version: config.vehicle.vda_full_version.clone(),
            manufacturer: config.vehicle.manufacturer.clone(),
            serial_number: config.vehicle.serial_number.clone(),
            connection_state: ConnectionState::ConnectionBroken,
        };
        let state_topic = sub_topic(base_topic.as_str(), "state");
        let agv_position = AgvPosition {
            x: random_x,
            y: random_y,
            position_initialized: false,
            theta: Real32::zero(),
            map_id: config.settings.map_id.clone(),
            deviation_range: None,
            map_description: None,
            localization_score: None,
        };
        let state = State {
            header_id: 0,
            timestamp: state_time,
            version: config.vehicle.vda_full_version.clone(),
            manufacturer: config.vehicle.manufacturer.clone(),
            serial_number: config.vehicle.serial_number.clone(),
            driving: false,
            distance_since_last_node: None,
            operating_mode: OperatingMode::Automatic,
            node_states: Vec::new(),
            edge_states: Vec::new(),
            last_node_id: String::new(),
            order_id: String::new(),
            order_update_id: 0,
            last_node_sequence_id: 0,
            action_states: Vec::new(),
            information: Vec::new(),
            loads: Vec::new(),
            errors: Vec::new(),
            battery_state: BatteryState {
                battery_charge: Real32 { bits: FULL_CHARGE_BITS },
                battery_voltage: None,
                battery_health: None,
                charging: false,
                reach: None,
            },
            safety_state: SafetyState { e_stop: EStop::NoStop, field_violation: false },
            paused: None,
            new_base_request: None,
            agv_position: Some(agv_position.clone()),
            velocity: None,
            zone_set_id: None,
        };
        let visualization_topic = sub_topic(base_topic.as_str(), "visualization");
        let visualization = Visualization {
            header_id: 0,
            timestamp: visualization_time,
            version: config.vehicle.vda_full_version.clone(),
            manufacturer: config.vehicle.manufacturer.clone(),
            serial_number: config.vehicle.serial_number.clone(),
            agv_position: Some(agv_position.clone()),
            velocity: None,
        };
        VehicleSimulator {
            connection_topic,
            connection,
            state_topic,
            state,
            visualization_topic,
            visualization,
            order: None,
            instant_actions: None,
            action_start_time: None,
            config,
        }
    }

    /// `new_at` with three timestamps read from the clock, one for each
    /// message; `None` where the clock gives no timestamp.
    pub fn new(config: Config, random_x: Real32, random_y: Real32) -> (r: Option<VehicleSimulator>)
        ensures
            r matches Some(sim) ==> is_new_vehicle(sim, config, random_x, random_y),
            r matches Some(sim) ==> sim.state.operating_mode == OperatingMode::Automatic,
    {
        let connection_time = match get_timestamp() {
            Some(t) => t,
            None => {
                return None;
            },
        };
        let state_time = match get_timestamp() {
            Some(t) => t,
            None => {
                return None;
            },
        };
        let visualization_time = match get_timestamp() {
            Some(t) => t,
            None => {
                return None;
            },
        };
        Some(Self::new_at(config, random_x, random_y, connection_time, state_time, visualization_time))
    }

    /// Marks the connection online, as the next connection message says once
    /// the broken one has gone out: the header id goes up by one and the
    /// message carries `timestamp`.
    pub fn stamp_connection_online(&mut self, timestamp: String)
        requires
            old(self).connection.header_id < u32::MAX,
        ensures
            *final(self) == (VehicleSimulator {
                connection: Connection {
                    header_id: (old(self).connection.header_id + 1) as u32,
                    timestamp,
                    connection_state: ConnectionState::Online,
                    ..old(self).connection
                },
                ..*old(self)
            }),
    {
        self.connection.header_id = self.connection.header_id + 1;
        self.connection.timestamp = timestamp;
        self.connection.connection_state = ConnectionState::Online;
    }

    /// `stamp_connection_online` with the current time; `false`, and nothing
    /// changes, where the clock gives no timestamp.
    pub fn next_connection_message(&mut self) -> (r: bool)
        requires
            old(self).connection.header_id < u32::MAX,
        ensures
            r ==> is_protocol_timestamp(final(self).connection.timestamp@) && *final(self) == (VehicleSimulator {
                connection: Connection {
                    header_id: (old(self).connection.header_id + 1) as u32,
                    timestamp: final(self).connection.timestamp,
                    connection_state: ConnectionState::Online,
                    ..old(self).connection
                },
                ..*old(self)
            }),
            !r ==> *final(self) == *old(self),
    {
        match get_timestamp() {
            Some(t) => {
                self.stamp_connection_online(t);
                true
            },
            None => false,
        }
    }

    /// Prepares the next state message: the header id goes up by one and the
    /// message carries `timestamp`.
    pub fn stamp_state(&mut self, timestamp: String)
        requires
            old(self).state.header_id < u32::MAX,
        ensures
            *final(self) == (VehicleSimulator {
                state: State {
                    header_id: (old(self).state.header_id + 1) as u32,
                    timestamp,
                    ..old(self).state
                },
                ..*old(self)
            }),
    {
        self.state.header_id = self.state.header_id + 1;
        self.state.timestamp = timestamp;
    }

    /// `stamp_state` with the current time; `false`, and nothing changes,
    /// where the clock gives no timestamp.
    pub fn next_state_message(&mut self) -> (r: bool)
        requires
            old(self).state.header_id < u32::MAX,
        ensures
            r ==> is_protocol_timestamp(final(self).state.timestamp@) && *final(self) == (VehicleSimulator {
                state: State {
                    header_id: (old(self).state.header_id + 1) as u32,
                    timestamp: final(self).state.timestamp,
                    ..old(self).state
                },
                ..*old(self)
            }),
            !r ==> *final(self) == *old(self),
    {
        match get_timestamp() {
            Some(t) => {
                self.stamp_state(t);
                true
            },
            None => false,
        }
    }

    /// Prepares the next visualization message: the header id goes up by one
    /// and the message carries `timestamp`.
    pub fn stamp_visualization(&mut self, timestamp: String)
        requires
            old(self).visualization.header_id < u32::MAX,
        ensures
            *final(self) == (VehicleSimulator {
                visualization: Visualization {
                    header_id: (old(self).visualization.header_id + 1) as u32,
                    timestamp,
                    ..old(self).visualization
                },
                ..*old(self)
            }),
    {
        self.visualization.header_id = self.visualization.header_id + 1;
        self.visualization.timestamp = timestamp;
    }

    /// `stamp_visualization` with the current time; `false`, and nothing
    /// changes, where the clock gives no timestamp.
    pub fn next_visualization_message(&mut self) -> (r: bool)
        requires
            old(self).visualization.header_id < u32::MAX,
        ensures
            r ==> is_protocol_timestamp(final(self).visualization.timestamp@) && *final(self) == (VehicleSimulator {
                visualization: Visualization {
                    header_id: (old(self).visualization.header_id + 1) as u32,
                    timestamp: final(self).visualization.timestamp,
                    ..old(self).visualization
                },
                ..*old(self)
            }),
            !r ==> *final(self) == *old(self),
    {
        match get_timestamp() {
            Some(t) => {
                self.stamp_visualization(t);
                true
            },
            None => false,
        }
    }

    /// Takes on instant actions: they become the vehicle's instant actions,
    /// and each of them gets a waiting action state, after the action states
    /// already there.
    pub fn instant_actions_accept_procedure(&mut self, instant_action_request: InstantActions)
        ensures
            final(self).instant_actions == Some(instant_action_request),
            final(self).state.action_states@ == old(self).state.action_states@
                + instant_action_request.actions@.map_values(|a: Action| instant_action_state(a)),
            final(self).state == (State { action_states: final(self).state.action_states, ..old(self).state }),
            *final(self) == (VehicleSimulator {
                state: final(self).state,
                instant_actions: final(self).instant_actions,
                ..*old(self)
            }),
    {
        let ghost old_states = self.state.action_states@;
        let actions = &instant_action_request.actions;
        let mut k: usize = 0;
        while k < actions.len()
            invariant
                k <= actions@.len(),
                self.state.action_states@ == old_states + actions@.take(k as int).map_values(
                    |a: Action| instant_action_state(a),
                ),
                self.state == (State { action_states: self.state.action_states, ..old(self).state }),
                *self == (VehicleSimulator { state: self.state, ..*old(self) }),
            decreases actions@.len() - k,
        {
            let a = &actions[k];
            let action_state = ActionState {
                action_id: a.action_id.clone(),
                action_status: ActionStatus::Waiting,
                action_type: Some(a.action_type.clone()),
                result_description: None,
                action_description: None,
            };
            self.state.action_states.push(action_state);
            proof {
                assert(actions@.take(k + 1) =~= actions@.take(k as int).push(actions@[k as int]));
                assert(actions@.take(k + 1).map_values(|a: Action| instant_action_state(a))
                    =~= actions@.take(k as int).map_values(|a: Action| instant_action_state(a)).push(
                    instant_action_state(actions@[k as int]),
                ));
                assert(self.state.action_states@ =~= old_states + actions@.take(k + 1).map_values(
                    |a: Action| instant_action_state(a),
                ));
            }
            k = k + 1;
        }
        assert(actions@.take(k as int) =~= actions@);
        self.instant_actions = Some(instant_action_request);
    }
}

}
