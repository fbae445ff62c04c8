//! Channel 0: period in the low half, off-period in the high half.

use vstd::prelude::*;

use crate::pac::generic;
use crate::pac::generic::{FieldReader, FieldWriter, Readable, RegisterSpec, Resettable, Writable};

verus! {

/// A value of the register that was read.
pub type R = generic::R<Ch0ParamSpec>;

/// A value of the register that is to be written.
pub type W = generic::W<Ch0ParamSpec>;

impl R {
    /// The counts of a cycle.
    pub fn period(&self) -> (f: FieldReader<u16>)
        ensures
            f.value == self.bits as int % 0x1_0000,
    {
        let bits: u32 = self.bits;
        proof {
            generic::lemma_fields(bits);
        }
        FieldReader::new((bits & 0xffff) as u16)
    }

    /// The counts of a cycle for which the output is low.
    pub fn offperiod(&self) -> (f: FieldReader<u16>)
        ensures
            f.value == self.bits as int / 0x1_0000,
    {
        let bits: u32 = self.bits;
        proof {
            generic::lemma_fields(bits);
        }
        FieldReader::new(((bits >> 16) & 0xffff) as u16)
    }
}

impl W {
    /// The counts of a cycle.
    pub fn period(&mut self) -> (f: FieldWriter<'_, Ch0ParamSpec>)
        ensures
            *f.w == *old(self),
            *final(f.w) == *final(self),
            f.mask == 0xffff,
            f.offset == 0,
    {
        FieldWriter::new(self, 0xffff, 0)
    }

    /// The counts of a cycle for which the output is low.
    pub fn offperiod(&mut self) -> (f: FieldWriter<'_, Ch0ParamSpec>)
        ensures
            *f.w == *old(self),
            *final(f.w) == *final(self),
            f.mask == 0xffff,
            f.offset == 16,
    {
        FieldWriter::new(self, 0xffff, 16)
    }
}

/// Names the period register of channel 0.
pub struct Ch0ParamSpec;

impl RegisterSpec for Ch0ParamSpec {

}

impl Readable for Ch0ParamSpec {

}

impl Writable for Ch0ParamSpec {

}

impl Resettable for Ch0ParamSpec {

}

} // verus!
