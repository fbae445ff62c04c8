//! Channel 1: update trigger. It cannot be read.

use vstd::prelude::*;

use crate::pac::generic;
use crate::pac::generic::{RegisterSpec, Resettable, Writable};

verus! {

/// A value of the register that is to be written.
pub type W = generic::W<Ch1UpdateSpec>;

/// Names the update register of channel 1.
pub struct Ch1UpdateSpec;

impl RegisterSpec for Ch1UpdateSpec {

}

impl Writable for Ch1UpdateSpec {

}

impl Resettable for Ch1UpdateSpec {

}

} // verus!
