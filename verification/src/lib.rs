//! Motorised blinds: two stepper-driven axes homed against limit switches,
//! a command protocol served over HTTP, and a scheduler that follows
//! sunrise and sunset.
//!
//! The board abstraction (`bal`) and the host board (`board`) come first;
//! then the building blocks (fixed-point velocities, clock times, command
//! buffers); then the axes, the blinds controller, the scheduler and the
//! network side. `prototype_axis` keeps the first prototype's homing.
pub mod bal;
pub mod board;
pub mod board_wifi;
pub mod esp32_board;

pub mod clock;
pub mod command_queue;
pub mod fixed_point;
pub mod user_settings;
pub mod web_protocol;

pub mod astronomy;
pub mod axis;
pub mod prototype_axis;
pub mod blinds_controller;
pub mod ip_geolocation;
pub mod network;
pub mod scheduler;
