//! Peripheral registers, as values.

use vstd::prelude::*;

pub mod generic;
pub mod pwm;

verus! {

/// The pulse width modulator. There is one.
pub struct Pwm {}

} // verus!
