//! Channel 1: prescaler.

use vstd::prelude::*;

use crate::pac::generic;
use crate::pac::generic::{FieldReader, FieldWriter, Readable, RegisterSpec, Resettable, Writable};

verus! {

/// A value of the register that was read.
pub type R = generic::R<Ch1PhaseSpec>;

/// A value of the register that is to be written.
pub type W = generic::W<Ch1PhaseSpec>;

impl R {
    /// The exponent of the divisor of the channel's clock.
    pub fn prescale(&self) -> (f: FieldReader<u8>)
        ensures
            f.value == self.bits as int / 0x1_0000 % 16,
    {
        let bits: u32 = self.bits;
        proof {
            generic::lemma_fields(bits);
        }
        FieldReader::new(((bits >> 16) & 0x0f) as u8)
    }
}

impl W {
    /// The exponent of the divisor of the channel's clock.
    pub fn prescale(&mut self) -> (f: FieldWriter<'_, Ch1PhaseSpec>)
        ensures
            *f.w == *old(self),
            *final(f.w) == *final(self),
            f.mask == 0xf,
            f.offset == 16,
    {
        FieldWriter::new(self, 0xf, 16)
    }
}

/// Names the prescaler register of channel 1.
pub struct Ch1PhaseSpec;

impl RegisterSpec for Ch1PhaseSpec {

}

impl Readable for Ch1PhaseSpec {

}

impl Writable for Ch1PhaseSpec {

}

impl Resettable for Ch1PhaseSpec {

}

} // verus!
