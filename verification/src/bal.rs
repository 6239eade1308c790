//! The board abstraction layer: the types and traits through which the
//! application talks to a board's steppers, switches, network and servers.
pub mod client;
pub mod networking_types;
pub mod server;
pub mod stepper;
pub mod switch;
pub mod takeable;
pub mod wifi;
