//! Decision logic of a network-monitoring agent: device bookkeeping,
//! scheduler state, persisted-state updates and cloud protocol decisions.

pub mod cancellation;
pub mod device;
pub mod text;
pub mod mac;
pub mod merge;
pub mod persistence;
pub mod scheduler;
pub mod health;
pub mod cloud_commands;
pub mod cloud;
pub mod auth;
pub mod laws;
