//! The identity of each application core.

use vstd::prelude::*;

verus! {

/// One of the six application cores. `Core0` is the main core.
#[derive(Clone, Copy, Debug, PartialEq, Eq, Structural)]
pub enum Core {
    Core0,
    Core1,
    Core2,
    Core3,
    Core4,
    Core5,
}

/// Number of application cores.
pub const CORE_COUNT: usize = 6;

impl Core {
    /// The position of this core among the application cores.
    pub open spec fn spec_index(self) -> int {
        match self {
            Core::Core0 => 0,
            Core::Core1 => 1,
            Core::Core2 => 2,
            Core::Core3 => 3,
            Core::Core4 => 4,
            Core::Core5 => 5,
        }
    }

    /// The master id that the interconnect gives this core: two more than its position.
    pub open spec fn spec_raw_pid(self) -> int {
        self.spec_index() + 2
    }

    /// The position of this core, from 0.
    pub fn index(self) -> (i: u8)
        ensures
            i == self.spec_index(),
            i < CORE_COUNT,
    {
        match self {
            Core::Core0 => 0,
            Core::Core1 => 1,
            Core::Core2 => 2,
            Core::Core3 => 3,
            Core::Core4 => 4,
            Core::Core5 => 5,
        }
    }

    /// The raw id under which the hardware knows this core.
    pub fn raw_pid(self) -> (pid: u8)
        ensures
            pid == self.spec_raw_pid(),
            2 <= pid <= 7,
    {
        self.index() + 2
    }

    /// The core at a position, or `None` past the last one.
    pub fn from_index(index: u8) -> (core: Option<Core>)
        ensures
            match core {
                Some(c) => c.spec_index() == index,
                None => index >= CORE_COUNT,
            },
    {
        if index == 0 {
            Some(Core::Core0)
        } else if index == 1 {
            Some(Core::Core1)
        } else if index == 2 {
            Some(Core::Core2)
        } else if index == 3 {
            Some(Core::Core3)
        } else if index == 4 {
            Some(Core::Core4)
        } else if index == 5 {
            Some(Core::Core5)
        } else {
            None
        }
    }
}

/// Cores are told apart by their positions.
pub proof fn law_core_index_injective(a: Core, b: Core)
    ensures
        a.spec_index() == b.spec_index() <==> a == b,
        0 <= a.spec_index() < CORE_COUNT,
{
}

/// The positions of the cores count from 0, and the hardware's ids from 2.
pub proof fn law_core_numbers(c: Core)
    ensures
        c == Core::Core0 <==> c.spec_index() == 0,
        c == Core::Core1 <==> c.spec_index() == 1,
        c == Core::Core2 <==> c.spec_index() == 2,
        c == Core::Core3 <==> c.spec_index() == 3,
        c == Core::Core4 <==> c.spec_index() == 4,
        c == Core::Core5 <==> c.spec_index() == 5,
        c.spec_raw_pid() == c.spec_index() + 2,
{
}

} // verus!
