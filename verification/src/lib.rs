//! A simulated automated guided vehicle speaking the VDA 5050 (2.0) protocol.
//!
//! The library holds the protocol's message types and the vehicle's decisions:
//! which orders it accepts, how it records the actions it has to run, how it
//! walks the nodes of an accepted order and how its MQTT topics are named.
//! Geometry (distances, headings) is computed by the caller on single-precision
//! reals; the library carries those values by their IEEE-754 bit patterns.

pub mod common;
pub mod utils;
pub mod action;
pub mod order;
pub mod instant_actions;
pub mod connection;
pub mod visualization;
pub mod state;
pub mod factsheet;
pub mod config;
pub mod topics;
pub mod schedule;
pub mod search;
pub mod simulator;
pub mod orders;
pub mod iteration;
pub mod laws;
