//! Drivers for the Sony CXD5602 (Spresense), with the logic of each driver stated and proved.
//!
//! A driver here never touches a register. What it decides is a function of the values that the
//! caller read from the hardware, and what it wants done is a value that the caller carries out:
//! a register write, a bus transaction, or the next [`icc::Action`] of a driver that waits for
//! another core.

pub mod bsp;
pub mod clocks;
pub mod farapi;
pub mod gnss;
pub mod icc;
pub mod monitor;
pub mod multicore;
pub mod pac;
pub mod pwm;
pub mod registry;
mod sealed;
pub mod sleep;
pub mod units;
