//! Registers, and typed views of their fields.

use vstd::prelude::*;

use std::marker::PhantomData;

verus! {

/// Names a register.
pub trait RegisterSpec {

}

/// A register that can be read.
pub trait Readable: RegisterSpec {

}

/// A register that can be written.
pub trait Writable: RegisterSpec {

}

/// A register that resets to 0.
pub trait Resettable: RegisterSpec {

}

/// The contents of one register.
pub struct Reg<S: RegisterSpec> {
    pub value: u32,
    pub spec: PhantomData<S>,
}

/// A value that was read from a register.
pub struct R<S: RegisterSpec> {
    pub bits: u32,
    pub spec: PhantomData<S>,
}

/// A value that is to be written to a register.
pub struct W<S: RegisterSpec> {
    pub bits: u32,
    pub spec: PhantomData<S>,
}

impl<S: RegisterSpec> Reg<S> {
    /// A register with the given contents.
    pub fn new(value: u32) -> (r: Reg<S>)
        ensures
            r.value == value,
    {
        Reg { value, spec: PhantomData }
    }

    /// Puts the value of `w` into the register.
    pub fn write(&mut self, w: W<S>) where S: Writable
        ensures
            final(self).value == w.bits,
    {
        self.value = w.bits;
    }

    /// Resets the register.
    pub fn reset(&mut self) where S: Resettable
        ensures
            final(self).value == 0,
    {
        self.value = 0;
    }

    /// Reads the register.
    pub fn read(&self) -> (r: R<S>) where S: Readable
        ensures
            r.bits == self.value,
    {
        R { bits: self.value, spec: PhantomData }
    }
}

impl<S: RegisterSpec> R<S> {
    /// The value as a word.
    pub fn bits(&self) -> (b: u32)
        ensures
            b == self.bits,
    {
        self.bits
    }
}

impl<S: Resettable> W<S> {
    /// A value that starts from the register's reset.
    pub fn reset() -> (w: W<S>)
        ensures
            w.bits == 0,
    {
        W { bits: 0, spec: PhantomData }
    }
}

impl<S: RegisterSpec> W<S> {
    /// Replaces the whole value.
    pub fn bits(&mut self, bits: u32)
        ensures
            final(self).bits == bits,
    {
        self.bits = bits;
    }
}

/// A field that was read.
#[derive(Debug, PartialEq, Eq)]
pub struct FieldReader<T> {
    pub value: T,
}

impl<T: Copy> FieldReader<T> {
    pub fn new(value: T) -> (r: FieldReader<T>)
        ensures
            r.value == value,
    {
        FieldReader { value }
    }

    /// The field as a number.
    pub fn bits(&self) -> (v: T)
        ensures
            v == self.value,
    {
        self.value
    }
}

/// A field of one bit that was read.
#[derive(Clone, Copy, Debug, PartialEq, Eq, Structural)]
pub struct BitReader {
    pub value: bool,
}

impl BitReader {
    pub fn new(value: bool) -> (r: BitReader)
        ensures
            r.value == value,
    {
        BitReader { value }
    }

    /// The bit.
    pub fn bit(&self) -> (v: bool)
        ensures
            v == self.value,
    {
        self.value
    }
}

/// The word `bits` with the field of `mask` at `offset` replaced by `value`.
pub open spec fn with_field(bits: u32, mask: u32, offset: u8, value: u32) -> u32 {
    (bits & !(mask << offset)) | ((value & mask) << offset)
}

/// A field of several bits that is to be written. `mask` is the field's width at the low end.
pub struct FieldWriter<'a, S: RegisterSpec> {
    pub w: &'a mut W<S>,
    pub mask: u32,
    pub offset: u8,
}

impl<'a, S: RegisterSpec> FieldWriter<'a, S> {
    pub fn new(w: &'a mut W<S>, mask: u32, offset: u8) -> (f: FieldWriter<'a, S>)
        ensures
            *f.w == *old(w),
            *final(f.w) == *final(w),
            f.mask == mask,
            f.offset == offset,
    {
        FieldWriter { w, mask, offset }
    }

    /// Sets the field to the low bits of `value`, and leaves the rest of the word.
    pub fn bits(self, value: u32)
        requires
            self.offset < 32,
        ensures
            final(self.w).bits == with_field(old(self.w).bits, self.mask, self.offset, value),
    {
        let mask: u32 = self.mask;
        let offset: u8 = self.offset;
        let kept: u32 = self.w.bits & !(mask << offset);
        self.w.bits = kept | ((value & mask) << offset);
    }
}

/// A field of one bit that is to be written.
pub struct BitWriter<'a, S: RegisterSpec> {
    pub w: &'a mut W<S>,
    pub offset: u8,
}

impl<'a, S: RegisterSpec> BitWriter<'a, S> {
    pub fn new(w: &'a mut W<S>, offset: u8) -> (f: BitWriter<'a, S>)
        ensures
            *f.w == *old(w),
            *final(f.w) == *final(w),
            f.offset == offset,
    {
        BitWriter { w, offset }
    }

    /// Sets the bit to `value`, and leaves the rest of the word.
    pub fn bit(self, value: bool)
        requires
            self.offset < 32,
        ensures
            final(self.w).bits == with_field(
                old(self.w).bits,
                1,
                self.offset,
                if value {
                    1
                } else {
                    0
                },
            ),
    {
        let number: u32 = if value {
            1
        } else {
            0
        };
        FieldWriter::new(self.w, 1, self.offset).bits(number)
    }

    /// Sets the bit.
    pub fn set_bit(self)
        requires
            self.offset < 32,
        ensures
            final(self.w).bits == with_field(old(self.w).bits, 1, self.offset, 1),
    {
        self.bit(true)
    }

    /// Clears the bit.
    pub fn clear_bit(self)
        requires
            self.offset < 32,
        ensures
            final(self.w).bits == with_field(old(self.w).bits, 1, self.offset, 0),
    {
        self.bit(false)
    }
}

/// Shifting and masking a word reads its fields.
pub proof fn lemma_fields(bits: u32)
    ensures
        bits & 0xffff == bits as int % 0x1_0000,
        (bits >> 16) & 0xffff == bits as int / 0x1_0000,
        (bits >> 16) & 0x0f == bits as int / 0x1_0000 % 16,
        bits & 1 == bits as int % 2,
{
    assert(bits & 0xffff == bits % 0x1_0000 && (bits >> 16) & 0xffff == bits / 0x1_0000 && (bits
        >> 16) & 0x0f == bits / 0x1_0000 % 16 && bits & 1 == bits % 2) by (bit_vector);
}

/// A field reads back as it was written, as far as it fits, and the rest of the word is left.
pub proof fn law_field_reads_back(bits: u32, value: u32)
    ensures
        with_field(bits, 0xffff, 0, value) & 0xffff == value % 0x1_0000,
        (with_field(bits, 0xffff, 0, value) >> 16) & 0xffff == (bits >> 16) & 0xffff,
        (with_field(bits, 0xffff, 16, value) >> 16) & 0xffff == value % 0x1_0000,
        with_field(bits, 0xffff, 16, value) & 0xffff == bits & 0xffff,
        (with_field(bits, 0xf, 16, value) >> 16) & 0xf == value % 16,
        with_field(bits, 0xf, 16, value) & 0xfff0_ffff == bits & 0xfff0_ffff,
        with_field(bits, 1, 0, value) & 1 == value % 2,
        with_field(bits, 1, 0, value) & 0xffff_fffe == bits & 0xffff_fffe,
{
    assert(((bits & !(0xffffu32 << 0u8)) | ((value & 0xffff) << 0u8)) & 0xffff == value % 0x1_0000
        && (((bits & !(0xffffu32 << 0u8)) | ((value & 0xffff) << 0u8)) >> 16) & 0xffff == (bits
        >> 16) & 0xffff) by (bit_vector);
    assert((((bits & !(0xffffu32 << 16u8)) | ((value & 0xffff) << 16u8)) >> 16) & 0xffff == value
        % 0x1_0000 && ((bits & !(0xffffu32 << 16u8)) | ((value & 0xffff) << 16u8)) & 0xffff == bits
        & 0xffff) by (bit_vector);
    assert((((bits & !(0xfu32 << 16u8)) | ((value & 0xf) << 16u8)) >> 16) & 0xf == value % 16 && ((
    bits & !(0xfu32 << 16u8)) | ((value & 0xf) << 16u8)) & 0xfff0_ffff == bits & 0xfff0_ffff)
        by (bit_vector);
    assert(((bits & !(1u32 << 0u8)) | ((value & 1) << 0u8)) & 1 == value % 2 && ((bits & !(1u32
        << 0u8)) | ((value & 1) << 0u8)) & 0xffff_fffe == bits & 0xffff_fffe) by (bit_vector);
}

/// Bit by bit, a word whose field was replaced has the bits of the value where the field is, and its
/// own bits elsewhere.
pub proof fn law_field_is_replaced(bits: u32, mask: u32, offset: u8, value: u32, k: u32)
    requires
        offset < 32,
        k < 32,
    ensures
        (with_field(bits, mask, offset, value) >> k) & 1 == if ((mask << offset) >> k) & 1 == 1 {
            ((value << offset) >> k) & 1
        } else {
            (bits >> k) & 1
        },
{
    assert((((bits & !(mask << offset)) | ((value & mask) << offset)) >> k) & 1 == if ((mask
        << offset) >> k) & 1 == 1 {
        ((value << offset) >> k) & 1
    } else {
        (bits >> k) & 1
    }) by (bit_vector)
        requires
            offset < 32,
            k < 32,
    ;
}

} // verus!
