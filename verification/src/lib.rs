//! Verified core of a daemon that monitors energy sources and switches
//! appliances: the multi-setpoint hysteresis controller, the decisions of
//! the device miners, query construction for the time series database,
//! login and request routing of the GraphQL front end, switch channels
//! and the arithmetic of the data migrations.

pub mod csvimport;
pub mod daemon;
pub mod error;
pub mod gpio_switch;
pub mod graphql;
pub mod influx;
pub mod migrations;
pub mod miner;
pub mod multi_setpoint_hysteresis;
pub mod text;
