//! Channel 0: update trigger. It cannot be read.

use vstd::prelude::*;

use crate::pac::generic;
use crate::pac::generic::{RegisterSpec, Resettable, Writable};

verus! {

/// A value of the register that is to be written.
pub type W = generic::W<Ch0UpdateSpec>;

/// Names the update register of channel 0.
pub struct Ch0UpdateSpec;

impl RegisterSpec for Ch0UpdateSpec {

}

impl Writable for Ch0UpdateSpec {

}

impl Resettable for Ch0UpdateSpec {

}

} // verus!
