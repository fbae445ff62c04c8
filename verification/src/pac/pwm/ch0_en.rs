//! Channel 0: output enable.

use vstd::prelude::*;

use crate::pac::generic;
use crate::pac::generic::{BitReader, BitWriter, Readable, RegisterSpec, Resettable, Writable};

verus! {

/// A value of the register that was read.
pub type R = generic::R<Ch0EnSpec>;

/// A value of the register that is to be written.
pub type W = generic::W<Ch0EnSpec>;

impl R {
    /// Whether the output is enabled. An output that is not is low.
    pub fn enable(&self) -> (f: BitReader)
        ensures
            f.value == (self.bits % 2 == 1),
    {
        let bits: u32 = self.bits;
        proof {
            generic::lemma_fields(bits);
        }
        BitReader::new(bits & 1 != 0)
    }
}

impl W {
    /// Whether the output is enabled.
    pub fn enable(&mut self) -> (f: BitWriter<'_, Ch0EnSpec>)
        ensures
            *f.w == *old(self),
            *final(f.w) == *final(self),
            f.offset == 0,
    {
        BitWriter::new(self, 0)
    }
}

/// Names the enable register of channel 0.
pub struct Ch0EnSpec;

impl RegisterSpec for Ch0EnSpec {

}

impl Readable for Ch0EnSpec {

}

impl Writable for Ch0EnSpec {

}

impl Resettable for Ch0EnSpec {

}

} // verus!
