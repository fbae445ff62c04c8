//! Values that the positioning firmware takes and gives.

use vstd::prelude::*;

verus! {

/// Every signal of the GPS family: GPS, SBAS, QZSS L1 C/A, IMES and QZSS L1S.
pub const FAMILY_MASK: u32 = 0x3d;

proof fn lemma_single_signals()
    ensures
        0u32 & !FAMILY_MASK == 0,
        0x01u32 & !FAMILY_MASK == 0,
        0x04u32 & !FAMILY_MASK == 0,
        0x08u32 & !FAMILY_MASK == 0,
        0x10u32 & !FAMILY_MASK == 0,
        0x20u32 & !FAMILY_MASK == 0,
{
    assert(0u32 & !0x3du32 == 0 && 0x01u32 & !0x3du32 == 0 && 0x04u32 & !0x3du32 == 0 && 0x08u32
        & !0x3du32 == 0 && 0x10u32 & !0x3du32 == 0 && 0x20u32 & !0x3du32 == 0) by (bit_vector);
}

/// A set of signals that share the structure of GPS L1 C/A. They can be combined freely.
#[derive(Clone, Copy, Debug, PartialEq, Eq, Structural)]
pub struct GpsFamily(u32);

impl GpsFamily {
    /// No such signal: the way to ask for a [`Secondary`] constellation alone.
    pub fn none() -> (r: GpsFamily)
        ensures
            r.mask() == 0,
    {
        proof {
            lemma_single_signals();
        }
        GpsFamily(0)
    }

    /// GPS L1 C/A.
    pub fn gps() -> (r: GpsFamily)
        ensures
            r.mask() == 0x01,
    {
        proof {
            lemma_single_signals();
        }
        GpsFamily(0x01)
    }

    /// SBAS L1 C/A.
    pub fn sbas() -> (r: GpsFamily)
        ensures
            r.mask() == 0x04,
    {
        proof {
            lemma_single_signals();
        }
        GpsFamily(0x04)
    }

    /// QZSS L1 C/A.
    pub fn qzss_l1ca() -> (r: GpsFamily)
        ensures
            r.mask() == 0x08,
    {
        proof {
            lemma_single_signals();
        }
        GpsFamily(0x08)
    }

    /// IMES.
    pub fn imes() -> (r: GpsFamily)
        ensures
            r.mask() == 0x10,
    {
        proof {
            lemma_single_signals();
        }
        GpsFamily(0x10)
    }

    /// QZSS L1S.
    pub fn qzss_l1s() -> (r: GpsFamily)
        ensures
            r.mask() == 0x20,
    {
        proof {
            lemma_single_signals();
        }
        GpsFamily(0x20)
    }

    /// The mask of the set.
    pub closed spec fn mask(self) -> u32 {
        self.0
    }

    /// A set holds nothing outside the family.
    #[verifier::type_invariant]
    spec fn within_family(self) -> bool {
        self.0 & !FAMILY_MASK == 0
    }

    /// The mask of the set, as the firmware takes it. It names nothing outside the family.
    pub fn bits(self) -> (b: u32)
        ensures
            b == self.mask(),
            b & !FAMILY_MASK == 0,
    {
        proof {
            use_type_invariant(&self);
        }
        self.0
    }

    /// The signals of both sets.
    pub fn union(self, other: GpsFamily) -> (r: GpsFamily)
        ensures
            r.mask() == self.mask() | other.mask(),
    {
        proof {
            use_type_invariant(&self);
            use_type_invariant(&other);
            let (a, b) = (self.0, other.0);
            assert(a & !0x3du32 == 0 && b & !0x3du32 == 0 ==> (a | b) & !0x3du32 == 0)
                by (bit_vector);
        }
        GpsFamily(self.0 | other.0)
    }

    /// Whether every signal of `other` is in this set.
    pub fn contains(self, other: GpsFamily) -> (r: bool)
        ensures
            r == (self.mask() & other.mask() == other.mask()),
    {
        self.0 & other.0 == other.0
    }
}

impl std::ops::BitOr for GpsFamily {
    type Output = GpsFamily;

    fn bitor(self, rhs: GpsFamily) -> (r: GpsFamily)
        ensures
            r.mask() == self.mask() | rhs.mask(),
    {
        self.union(rhs)
    }
}

impl std::ops::BitOrAssign for GpsFamily {
    fn bitor_assign(&mut self, rhs: GpsFamily)
        ensures
            final(self).mask() == old(self).mask() | rhs.mask(),
    {
        *self = self.union(rhs);
    }
}

impl vstd::std_specs::ops::BitOrSpecImpl for GpsFamily {
    open spec fn obeys_bitor_spec() -> bool {
        true
    }

    open spec fn bitor_req(self, rhs: GpsFamily) -> bool {
        true
    }

    closed spec fn bitor_spec(self, rhs: GpsFamily) -> GpsFamily {
        GpsFamily(self.0 | rhs.0)
    }
}

/// A set is its mask: two sets with the same mask are the same.
pub proof fn law_family_is_its_mask(a: GpsFamily, b: GpsFamily)
    requires
        a.mask() == b.mask(),
    ensures
        a == b,
{
}

/// The one constellation that can be tracked beside the GPS family. GLONASS, BeiDou and Galileo
/// exclude one another.
#[derive(Clone, Copy, Debug, PartialEq, Eq, Structural)]
pub enum Secondary {
    /// The GPS family alone.
    Empty,
    /// GLONASS L1OF.
    Glonass,
    /// BeiDou B1I.
    BeiDou,
    /// Galileo E1B/C.
    Galileo,
}

impl Secondary {
    /// The mask of the constellation.
    pub open spec fn mask(self) -> u32 {
        match self {
            Secondary::Empty => 0,
            Secondary::Glonass => 0x02,
            Secondary::BeiDou => 0x40,
            Secondary::Galileo => 0x80,
        }
    }

    /// The mask of the constellation, as the firmware takes it.
    pub fn bits(self) -> (b: u32)
        ensures
            b == self.mask(),
    {
        match self {
            Secondary::Empty => 0,
            Secondary::Glonass => 0x02,
            Secondary::BeiDou => 0x40,
            Secondary::Galileo => 0x80,
        }
    }
}

/// A choice of satellite systems. Two choices cannot be merged, so a choice that was made with
/// [`SatelliteSystems::new`] never names two constellations that exclude one another.
#[derive(Clone, Copy, Debug, PartialEq, Eq, Structural)]
pub struct SatelliteSystems(u32);

/// Whether a mask names two of the constellations that exclude one another. These are the masks
/// that the firmware refuses.
pub open spec fn names_two_secondaries(mask: u32) -> bool {
    ||| mask & 0x42 == 0x42
    ||| mask & 0x82 == 0x82
    ||| mask & 0xc0 == 0xc0
}

impl SatelliteSystems {
    /// The mask of the choice.
    pub closed spec fn mask(self) -> u32 {
        self.0
    }

    /// A set of the GPS family and at most one other constellation. The firmware refuses no such
    /// choice.
    pub fn new(family: GpsFamily, secondary: Secondary) -> (r: SatelliteSystems)
        ensures
            r.mask() == family.mask() | secondary.mask(),
            r.mask() & FAMILY_MASK == family.mask(),
            r.mask() & !FAMILY_MASK == secondary.mask(),
            !names_two_secondaries(r.mask()),
    {
        proof {
            use_type_invariant(&family);
            law_choice_is_legal(family.mask(), secondary);
        }
        SatelliteSystems(family.bits() | secondary.bits())
    }

    /// The mask of the choice, as the firmware takes it.
    pub fn bits(self) -> (b: u32)
        ensures
            b == self.mask(),
    {
        self.0
    }

    /// The choice that a mask of the firmware's stands for, whatever it names.
    pub fn from_bits(bits: u32) -> (r: SatelliteSystems)
        ensures
            r.mask() == bits,
    {
        SatelliteSystems(bits)
    }

    /// Whether every system of `other` is in this choice.
    pub fn contains(self, other: SatelliteSystems) -> (r: bool)
        ensures
            r == (self.mask() & other.mask() == other.mask()),
    {
        self.0 & other.0 == other.0
    }
}

/// A choice is its mask: two choices with the same mask are the same, so a choice that is made of
/// the bits of another is that choice.
pub proof fn law_choice_is_its_mask(a: SatelliteSystems, b: SatelliteSystems)
    requires
        a.mask() == b.mask(),
    ensures
        a == b,
{
}

/// A choice made of a family set and at most one other constellation is never one that the
/// firmware refuses, and both parts can be read back from its mask.
pub proof fn law_choice_is_legal(family: u32, secondary: Secondary)
    requires
        family & !FAMILY_MASK == 0,
    ensures
        !names_two_secondaries(family | secondary.mask()),
        (family | secondary.mask()) & FAMILY_MASK == family,
        (family | secondary.mask()) & !FAMILY_MASK == secondary.mask(),
{
    let s = secondary.mask();
    assert((family | s) & 0x42 != 0x42 && (family | s) & 0x82 != 0x82 && (family | s) & 0xc0
        != 0xc0 && (family | s) & 0x3d == family && (family | s) & !0x3du32 == s) by (bit_vector)
        requires
            family & !0x3du32 == 0,
            s == 0 || s == 0x02 || s == 0x40 || s == 0x80,
    ;
}

/// The three largest choices.
pub proof fn law_largest_choices()
    ensures
        FAMILY_MASK == 0x01u32 | 0x04u32 | 0x08u32 | 0x10u32 | 0x20u32,
        FAMILY_MASK | Secondary::Glonass.mask() == 0x3f,
        FAMILY_MASK | Secondary::BeiDou.mask() == 0x7d,
        FAMILY_MASK | Secondary::Galileo.mask() == 0xbd,
{
    assert(0x3du32 == 0x01u32 | 0x04u32 | 0x08u32 | 0x10u32 | 0x20u32 && 0x3du32 | 0x02u32 == 0x3f
        && 0x3du32 | 0x40u32 == 0x7d && 0x3du32 | 0x80u32 == 0xbd) by (bit_vector);
}

/// What the firmware may reuse of an earlier session when it starts.
#[derive(Clone, Copy, Debug, PartialEq, Eq, Structural)]
pub enum StartMode {
    /// Nothing.
    Cold,
    /// The almanac, and a rough position and time.
    Warm,
    /// The ephemeris too.
    Hot,
}

impl StartMode {
    /// The number that stands for the mode in a start command.
    pub open spec fn spec_code(self) -> u32 {
        match self {
            StartMode::Cold => 0,
            StartMode::Warm => 1,
            StartMode::Hot => 3,
        }
    }

    /// The number that stands for the mode in a start command.
    pub fn code(self) -> (c: u32)
        ensures
            c == self.spec_code(),
    {
        match self {
            StartMode::Cold => 0,
            StartMode::Warm => 1,
            StartMode::Hot => 3,
        }
    }
}

/// How the firmware positions.
#[derive(Clone, Copy, Debug, PartialEq, Eq, Structural)]
pub enum OperationMode {
    /// Continuously, with one output for each cycle.
    Normal,
}

impl OperationMode {
    /// The number that stands for the mode.
    pub open spec fn spec_code(self) -> u32 {
        1
    }

    /// The number that stands for the mode.
    pub fn code(self) -> (c: u32)
        ensures
            c == self.spec_code(),
    {
        match self {
            OperationMode::Normal => 1,
        }
    }
}

/// A day.
#[derive(Clone, Copy, Debug, PartialEq, Eq, Structural)]
pub struct Date {
    pub year: u16,
    pub month: u8,
    pub day: u8,
}

/// A time of day.
#[derive(Clone, Copy, Debug, PartialEq, Eq, Structural)]
pub struct Time {
    pub hour: u8,
    pub minute: u8,
    pub sec: u8,
    /// Microseconds.
    pub usec: u32,
}

/// The number of satellites that one positioning epoch can describe.
pub const MAX_SV_NUM: usize = 32;

/// The numbers of the start modes and of the constellations beside the GPS family.
pub proof fn law_numbers_of_modes(mode: StartMode, op: OperationMode, secondary: Secondary)
    ensures
        mode == StartMode::Cold <==> mode.spec_code() == 0,
        mode == StartMode::Warm <==> mode.spec_code() == 1,
        mode == StartMode::Hot <==> mode.spec_code() == 3,
        op.spec_code() == 1,
        secondary == Secondary::Empty <==> secondary.mask() == 0,
        secondary == Secondary::Glonass <==> secondary.mask() == 2,
        secondary == Secondary::BeiDou <==> secondary.mask() == 64,
        secondary == Secondary::Galileo <==> secondary.mask() == 128,
        FAMILY_MASK == 61,
{
}

} // verus!
