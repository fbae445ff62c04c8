//! Units of measure.

use vstd::prelude::*;

verus! {

/// A frequency in hertz.
#[derive(Clone, Copy, Debug, PartialEq, Eq, PartialOrd, Ord, Structural)]
pub struct Hertz {
    pub raw: u32,
}

impl Hertz {
    /// A frequency of `raw` hertz.
    pub fn from_hz(raw: u32) -> (f: Hertz)
        ensures
            f.raw == raw,
    {
        Hertz { raw }
    }

    /// The frequency in hertz.
    pub fn to_hz(&self) -> (raw: u32)
        ensures
            raw == self.raw,
    {
        self.raw
    }
}

} // verus!
