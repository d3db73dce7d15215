//! Gateway logic between Modbus/TCP clients and one Modbus/RTU serial line.

pub mod config;
pub mod connection;
pub mod crc;
pub mod errors;
pub mod logging;
pub mod modbus;
pub mod modbus_relay;
pub mod peer;
pub mod rtu_transport;
pub mod stats_manager;
pub mod text;
pub mod utils;
