//! Control plane of a single-connector electric-vehicle charge point: the
//! charging-session state machine, the event bus around it, the charge point
//! protocol messages and the store-and-forward delivery queues.
pub mod charger;
pub mod text;
pub mod bindings;
pub mod response;
pub mod bus;
pub mod delivery;
pub mod config;
pub mod ocpp;
pub mod ntp;
pub mod utils;
pub mod display;
pub mod actuators;
