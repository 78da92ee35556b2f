//! Settings of a simulated vehicle.
use vstd::prelude::*;

use crate::common::Real32;
use crate::utils::{decimal, push_decimal};

verus! {

/// Settings of the MQTT broker connection.
#[derive(Debug)]
pub struct MqttBroker {
    /// Host name or address of the broker.
    pub host: String,
    /// Port of the broker.
    pub port: String,
    /// Interface name, the first level of every VDA 5050 topic (e.g. "uagv").
    pub vda_interface: String,
}

/// Identity of the simulated vehicle.
#[derive(Debug)]
pub struct VehicleSettings {
    /// Serial number of the vehicle.
    pub serial_number: String,
    /// Manufacturer of the vehicle.
    pub manufacturer: String,
    /// Major version of the protocol, used in topics (e.g. "v2").
    pub vda_version: String,
    /// Full version of the protocol, used in messages (e.g. "2.0.0").
    pub vda_full_version: String,
}

/// Behaviour of the simulation.
#[derive(Debug)]
pub struct Settings {
    /// Map on which simulated vehicles start.
    pub map_id: String,
    /// Seconds a node action takes; no further step is taken meanwhile.
    pub action_time: u64,
    /// Distance driven per step, in meters.
    pub speed: Real32,
    /// Number of vehicles to simulate.
    pub robot_count: u32,
    /// State messages per second.
    pub state_frequency: u64,
    /// Visualization messages per second.
    pub visualization_frequency: u64,
}

/// All settings of a simulated vehicle.
#[derive(Debug)]
pub struct Config {
    /// The broker to connect to.
    pub mqtt_broker: MqttBroker,
    /// The vehicle's identity.
    pub vehicle: VehicleSettings,
    /// Behaviour of the simulation.
    pub settings: Settings,
}

impl Clone for MqttBroker {
    fn clone(&self) -> (r: Self)
        ensures
            r == *self,
    {
        MqttBroker { host: self.host.clone(), port: self.port.clone(), vda_interface: self.vda_interface.clone() }
    }
}

impl Clone for VehicleSettings {
    fn clone(&self) -> (r: Self)
        ensures
            r == *self,
    {
        VehicleSettings {
            serial_number: self.serial_number.clone(),
            manufacturer: self.manufacturer.clone(),
            vda_version: self.vda_version.clone(),
            vda_full_version: self.vda_full_version.clone(),
        }
    }
}

impl Clone for Settings {
    fn clone(&self) -> (r: Self)
        ensures
            r == *self,
    {
        Settings {
            map_id: self.map_id.clone(),
            action_time: self.action_time,
            speed: self.speed,
            robot_count: self.robot_count,
            state_frequency: self.state_frequency,
            visualization_frequency: self.visualization_frequency,
        }
    }
}

impl Clone for Config {
    fn clone(&self) -> (r: Self)
        ensures
            r == *self,
    {
        Config {
            mqtt_broker: self.mqtt_broker.clone(),
            vehicle: self.vehicle.clone(),
            settings: self.settings.clone(),
        }
    }
}

impl Config {
    /// The settings of the robot with index `robot_index` (counted from zero)
    /// of a fleet: the same, with one more than the index written after the
    /// serial number.
    pub fn for_robot(&self, robot_index: u32) -> (r: Config)
        requires
            robot_index < u32::MAX,
        ensures
            r.vehicle.serial_number@ == self.vehicle.serial_number@ + decimal((robot_index + 1) as nat),
            r == (Config {
                vehicle: VehicleSettings { serial_number: r.vehicle.serial_number, ..self.vehicle },
                ..*self
            }),
    {
        let mut r = self.clone();
        push_decimal(&mut r.vehicle.serial_number, (robot_index + 1) as u64);
        r
    }
}

}
