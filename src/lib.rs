//! A simulated programmable controller that exposes its register banks over
//! Modbus-TCP, with the decisions of its connection, acceptor and simulation
//! loops stated as verified step functions, and the change detection of a
//! client that polls it.

pub mod answer;
pub mod events;
pub mod frame;
pub mod plc;
pub mod server;
pub mod storage;
