//! Devices on the sensor board.

pub mod magnet;
pub mod motion;
pub mod pressure;
pub mod rg_led;
