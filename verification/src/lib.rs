//! Temperature and humidity sensor station: the verified core.
//!
//! The station polls a MODBUS-RTU temperature/humidity transmitter at a fixed
//! period, stores every measurement in SQLite and appends it to a CSV file; the
//! dashboard reads the stored measurements back. This crate holds the logic of
//! that pipeline: decoding the input registers, aligning the sampling instants
//! to the period grid, and converting measurements to and from stored rows.

pub mod model;
pub mod modbus;
pub mod schedule;
pub mod store;
