//! Starting a worker core on a closure.
//!
//! All cores run one image. A worker is started by placing the closure at the top of its stack and
//! two argument words below it, writing its first stack pointer and its entry into the boot words,
//! giving it the address map of the starting core, and releasing its reset and clock. It
//! acknowledges once it has taken the closure over; the boot words can then be used for the next
//! worker. A [`Worker`] is consumed by its start, so no core is started twice.

use vstd::prelude::*;

use crate::multicore::cpu::Core;
use std::marker::PhantomData;
use std::rc::Rc;

verus! {

/// Where the boot words, and the image's vector table, stand.
pub const ADSP_RAM_BASE: u32 = 0x0d00_0000;

/// The boot word for the first stack pointer.
pub const VECTOR_ISTACK: u32 = ADSP_RAM_BASE;

/// The boot word for the entry.
pub const VECTOR_RESETV: u32 = 0x0d00_0004;

/// The first tile of the address map of core 0.
pub const ACNV_P0_DST0: u32 = 0x0e01_2004;

/// The tiles of an address map, one word each.
pub const ACNV_TILES: u32 = 12;

/// How far the address maps of two neighbouring cores are apart.
pub const ACNV_CPU_STRIDE: u32 = 0x20;

/// The stack that has to be left below the argument words.
pub const MIN_HEADROOM: u32 = 64;

/// How often the acknowledgement is looked for again.
pub const ACK_BUDGET: u32 = 5_000_000;

/// Stack memory of a worker.
pub struct Stack<const SIZE: usize> {
    mem: [u8; SIZE],
}

impl<const SIZE: usize> Stack<SIZE> {
    /// The bytes.
    pub closed spec fn bytes(self) -> Seq<u8> {
        self.mem@
    }

    /// A stack of zeros.
    pub fn new() -> (s: Stack<SIZE>)
        ensures
            s.bytes() == Seq::new(SIZE as nat, |i: int| 0u8),
    {
        let s = Stack { mem: [0u8; SIZE] };
        assert(s.bytes() =~= Seq::new(SIZE as nat, |i: int| 0u8));
        s
    }
}

/// The right to start one worker core. It cannot be sent to another context, so two cores cannot
/// race to start workers.
#[derive(Debug)]
pub struct Worker {
    core: Core,
    not_send: PhantomData<Rc<()>>,
}

impl Worker {
    /// The core.
    pub closed spec fn target(self) -> Core {
        self.core
    }

    /// Which core this is for.
    pub fn core_id(&self) -> (c: Core)
        ensures
            c == self.target(),
    {
        self.core
    }
}

/// The rights to start each of the worker cores.
#[derive(Debug)]
pub struct Cores {
    pub core1: Worker,
    pub core2: Worker,
    pub core3: Worker,
    pub core4: Worker,
    pub core5: Worker,
}

/// Whether the workers are taken. The program keeps one of these.
pub struct CoresTaken {
    pub taken: bool,
}

impl Cores {
    /// The cores that the rights are for.
    pub open spec fn targets(self) -> Seq<Core> {
        seq![
            self.core1.target(),
            self.core2.target(),
            self.core3.target(),
            self.core4.target(),
            self.core5.target(),
        ]
    }

    /// Takes the rights, unless they are taken.
    pub fn take(flag: &mut CoresTaken) -> (r: Option<Cores>)
        ensures
            final(flag).taken,
            match r {
                Some(c) => !old(flag).taken && c.targets() == seq![
                    Core::Core1,
                    Core::Core2,
                    Core::Core3,
                    Core::Core4,
                    Core::Core5,
                ],
                None => old(flag).taken,
            },
    {
        if flag.taken {
            return None;
        }
        flag.taken = true;
        Some(
            Cores {
                core1: Worker { core: Core::Core1, not_send: PhantomData },
                core2: Worker { core: Core::Core2, not_send: PhantomData },
                core3: Worker { core: Core::Core3, not_send: PhantomData },
                core4: Worker { core: Core::Core4, not_send: PhantomData },
                core5: Worker { core: Core::Core5, not_send: PhantomData },
            },
        )
    }
}

/// Why a worker was not started. Its right and its stack are gone: a core that did not
/// acknowledge may still come up.
#[derive(Clone, Copy, Debug, PartialEq, Eq, Structural)]
pub enum SpawnError {
    /// The worker did not acknowledge in time.
    Timeout,
    /// The stack cannot hold the closure, the argument words and some stack below them.
    StackTooSmall,
}

/// Where the closure and the argument words stand.
#[derive(Clone, Copy, Debug, PartialEq, Eq, Structural)]
pub struct Frame {
    /// The closure.
    pub f_dst: u32,
    /// The first stack pointer. The words there and after are the arguments: where the closure
    /// stands, and where the stack begins.
    pub sp: u32,
}

/// The largest multiple of `align` that is at most `n`.
pub open spec fn rounded_down(n: int, align: int) -> int {
    n - n % align
}

/// The frame for a closure of `f_size` bytes aligned to `f_align`, in a stack of `size` bytes at
/// `base`: the closure at the highest place where it fits, the argument words sixteen bytes below
/// the next multiple of eight. There is none if the closure does not fit, or if too little stack
/// is left.
pub open spec fn frame_for(base: u32, size: u32, f_size: u32, f_align: u32) -> Result<
    Frame,
    SpawnError,
> {
    let f_dst = rounded_down(base + size - f_size, f_align as int);
    let sp = rounded_down(f_dst, 8) - 16;
    if base + size < f_size || f_dst < base || sp < base + MIN_HEADROOM {
        Err(SpawnError::StackTooSmall)
    } else {
        Ok(Frame { f_dst: f_dst as u32, sp: sp as u32 })
    }
}

/// Lays out the frame of a worker's stack.
pub fn boot_frame(base: u32, size: u32, f_size: u32, f_align: u32) -> (r: Result<Frame, SpawnError>)
    requires
        base + size <= u32::MAX,
        f_align > 0,
    ensures
        r == frame_for(base, size, f_size, f_align),
{
    let top: u32 = base + size;
    if top < f_size {
        return Err(SpawnError::StackTooSmall);
    }
    let room: u32 = top - f_size;
    proof {
        vstd::arithmetic::div_mod::lemma_mod_decreases(room as nat, f_align as nat);
    }
    let f_dst: u32 = room - room % f_align;
    let even: u32 = f_dst - f_dst % 8;
    if even < 16 || f_dst < base || ((even - 16) as u64) < base as u64 + MIN_HEADROOM as u64 {
        return Err(SpawnError::StackTooSmall);
    }
    Ok(Frame { f_dst, sp: even - 16 })
}

/// A frame lies in its stack: some stack, then the argument words, then the closure, which is
/// aligned and ends before the stack does. The stack pointer is a multiple of eight.
pub proof fn law_frame_fits(base: u32, size: u32, f_size: u32, f_align: u32, frame: Frame)
    requires
        base + size <= u32::MAX,
        f_align > 0,
        frame_for(base, size, f_size, f_align) == Ok::<Frame, SpawnError>(frame),
    ensures
        base + MIN_HEADROOM <= frame.sp,
        frame.sp + 16 <= frame.f_dst,
        frame.f_dst + f_size <= base + size,
        frame.sp % 8 == 0,
        frame.f_dst % f_align == 0,
{
    let room = base + size - f_size;
    vstd::arithmetic::div_mod::lemma_fundamental_div_mod(room, f_align as int);
    let q = room / (f_align as int);
    let f_dst = rounded_down(room, f_align as int);
    assert(f_dst == f_align * q);
    assert(f_dst % (f_align as int) == 0) by {
        vstd::arithmetic::div_mod::lemma_mod_multiples_basic(q, f_align as int);
        assert(f_align * q == q * f_align) by (nonlinear_arith);
    }
    assert(room % (f_align as int) >= 0);
}

/// A closure that leaves room for the argument words and the headroom under any alignment fits.
pub proof fn law_large_stack_suffices(base: u32, size: u32, f_size: u32, f_align: u32)
    requires
        base + size <= u32::MAX,
        f_align > 0,
        f_size + f_align + 7 + 16 + MIN_HEADROOM <= size,
    ensures
        frame_for(base, size, f_size, f_align) is Ok,
{
    let room = base + size - f_size;
    assert(0 <= room % (f_align as int) < f_align) by (nonlinear_arith)
        requires
            f_align > 0,
    ;
}

/// A register of the clock and reset generator.
#[derive(Clone, Copy, Debug, PartialEq, Eq, Structural)]
pub enum CrgReg {
    /// A core whose bit is clear is held in reset.
    Reset,
    /// A core whose bit is set has its clock.
    Gate,
}

/// One operation of a start. The comment on each names the [`BootReply`] that answers it. The first
/// two stores, of the argument words, touch the worker's stack alone; from
/// [`BootAction::ClearAck`] up to the first [`BootAction::ReadAck`] everything belongs into one
/// critical section.
#[derive(Clone, Copy, Debug, PartialEq, Eq, Structural)]
pub enum BootAction {
    /// Store a word in memory: [`BootReply::Done`].
    Store { addr: u32, value: u32 },
    /// Load a word from memory: [`BootReply::Bits`].
    Load { addr: u32 },
    /// Read a register: [`BootReply::Bits`].
    ReadReg(CrgReg),
    /// Write a register: [`BootReply::Done`].
    WriteReg(CrgReg, u32),
    /// Clear the acknowledgement: [`BootReply::Done`].
    ClearAck,
    /// Order the memory accesses before against those after: [`BootReply::Done`].
    Barrier,
    /// Read the acknowledgement: [`BootReply::Ack`].
    ReadAck,
}

/// The answer to a [`BootAction`].
#[derive(Clone, Copy, Debug, PartialEq, Eq, Structural)]
pub enum BootReply {
    Done,
    Bits(u32),
    Ack(bool),
}

/// Where a start stands.
#[derive(Clone, Copy, Debug, PartialEq, Eq, Structural)]
pub enum BootPhase {
    /// The argument words are being stored.
    StageClosure,
    StageBase,
    ClearAck,
    /// The worker is put into reset.
    HoldRead,
    HoldWrite { reset: u32 },
    /// The boot words are being stored.
    VectorStack,
    VectorEntry,
    /// The worker's clock is turned on and off once.
    PulseRead,
    PulseOn { gate: u32 },
    PulseOff { gate: u32 },
    /// Tile `tile` of the address map is being copied.
    TileLoad { tile: u32 },
    TileStore { tile: u32, value: u32 },
    /// Everything stored so far has to be visible before the worker runs.
    Fence,
    /// The worker is let out of reset.
    ReleaseRead,
    ReleaseWrite { reset: u32 },
    /// The worker gets its clock.
    ClockRead,
    ClockWrite { gate: u32 },
    /// The acknowledgement is looked for, and `left` more times after that.
    AwaitAck { left: u32 },
    Started,
    TimedOut,
}

/// The start of one worker.
#[derive(Clone, Copy, Debug, PartialEq, Eq, Structural)]
pub struct Boot {
    /// The position of the worker's core.
    pub cpu: u32,
    pub base: u32,
    pub frame: Frame,
    /// The code that the worker enters.
    pub entry: u32,
    pub phase: BootPhase,
}

/// The bit of core `cpu` in the registers of the clock and reset generator.
pub open spec fn core_bit(cpu: u32) -> u32 {
    1u32 << ((16 + cpu) as u32)
}

/// Where tile `tile` of the address map of core `cpu` stands.
pub open spec fn tile_addr(cpu: u32, tile: u32) -> int {
    ACNV_P0_DST0 + 4 * tile + cpu * ACNV_CPU_STRIDE
}

impl Boot {
    pub open spec fn at(self, phase: BootPhase) -> Boot {
        Boot { phase, ..self }
    }

    pub open spec fn wf(self) -> bool {
        &&& 1 <= self.cpu <= 5
        &&& self.frame.sp + 16 <= self.frame.f_dst
        &&& match self.phase {
            BootPhase::TileLoad { tile } => tile < ACNV_TILES,
            BootPhase::TileStore { tile, .. } => tile < ACNV_TILES,
            _ => true,
        }
    }

    pub open spec fn wants(self) -> Option<BootAction> {
        let bit = core_bit(self.cpu);
        match self.phase {
            BootPhase::StageClosure => Some(
                BootAction::Store { addr: self.frame.sp, value: self.frame.f_dst },
            ),
            BootPhase::StageBase => Some(
                BootAction::Store { addr: (self.frame.sp + 4) as u32, value: self.base },
            ),
            BootPhase::ClearAck => Some(BootAction::ClearAck),
            BootPhase::HoldRead => Some(BootAction::ReadReg(CrgReg::Reset)),
            BootPhase::HoldWrite { reset } => Some(
                BootAction::WriteReg(CrgReg::Reset, reset & !bit),
            ),
            BootPhase::VectorStack => Some(
                BootAction::Store { addr: VECTOR_ISTACK, value: self.frame.sp },
            ),
            BootPhase::VectorEntry => Some(
                BootAction::Store { addr: VECTOR_RESETV, value: self.entry },
            ),
            BootPhase::PulseRead => Some(BootAction::ReadReg(CrgReg::Gate)),
            BootPhase::PulseOn { gate } => Some(BootAction::WriteReg(CrgReg::Gate, gate | bit)),
            BootPhase::PulseOff { gate } => Some(BootAction::WriteReg(CrgReg::Gate, gate & !bit)),
            BootPhase::TileLoad { tile } => Some(
                BootAction::Load { addr: tile_addr(0, tile) as u32 },
            ),
            BootPhase::TileStore { tile, value } => Some(
                BootAction::Store { addr: tile_addr(self.cpu, tile) as u32, value },
            ),
            BootPhase::Fence => Some(BootAction::Barrier),
            BootPhase::ReleaseRead => Some(BootAction::ReadReg(CrgReg::Reset)),
            BootPhase::ReleaseWrite { reset } => Some(
                BootAction::WriteReg(CrgReg::Reset, reset | bit),
            ),
            BootPhase::ClockRead => Some(BootAction::ReadReg(CrgReg::Gate)),
            BootPhase::ClockWrite { gate } => Some(BootAction::WriteReg(CrgReg::Gate, gate | bit)),
            BootPhase::AwaitAck { .. } => Some(BootAction::ReadAck),
            BootPhase::Started | BootPhase::TimedOut => None,
        }
    }

    pub open spec fn next(self, reply: BootReply) -> Boot {
        match (self.phase, reply) {
            (BootPhase::StageClosure, BootReply::Done) => self.at(BootPhase::StageBase),
            (BootPhase::StageBase, BootReply::Done) => self.at(BootPhase::ClearAck),
            (BootPhase::ClearAck, BootReply::Done) => self.at(BootPhase::HoldRead),
            (BootPhase::HoldRead, BootReply::Bits(reset)) => self.at(
                BootPhase::HoldWrite { reset },
            ),
            (BootPhase::HoldWrite { .. }, BootReply::Done) => self.at(BootPhase::VectorStack),
            (BootPhase::VectorStack, BootReply::Done) => self.at(BootPhase::VectorEntry),
            (BootPhase::VectorEntry, BootReply::Done) => self.at(BootPhase::PulseRead),
            (BootPhase::PulseRead, BootReply::Bits(gate)) => self.at(BootPhase::PulseOn { gate }),
            (BootPhase::PulseOn { gate }, BootReply::Done) => self.at(BootPhase::PulseOff { gate }),
            (BootPhase::PulseOff { .. }, BootReply::Done) => self.at(
                BootPhase::TileLoad { tile: 0 },
            ),
            (BootPhase::TileLoad { tile }, BootReply::Bits(value)) => self.at(
                BootPhase::TileStore { tile, value },
            ),
            (BootPhase::TileStore { tile, .. }, BootReply::Done) => if tile + 1 < ACNV_TILES {
                self.at(BootPhase::TileLoad { tile: (tile + 1) as u32 })
            } else {
                self.at(BootPhase::Fence)
            },
            (BootPhase::Fence, BootReply::Done) => self.at(BootPhase::ReleaseRead),
            (BootPhase::ReleaseRead, BootReply::Bits(reset)) => self.at(
                BootPhase::ReleaseWrite { reset },
            ),
            (BootPhase::ReleaseWrite { .. }, BootReply::Done) => self.at(BootPhase::ClockRead),
            (BootPhase::ClockRead, BootReply::Bits(gate)) => self.at(
                BootPhase::ClockWrite { gate },
            ),
            (BootPhase::ClockWrite { .. }, BootReply::Done) => self.at(
                BootPhase::AwaitAck { left: ACK_BUDGET },
            ),
            (BootPhase::AwaitAck { left }, BootReply::Ack(acked)) => if acked {
                self.at(BootPhase::Started)
            } else if left == 0 {
                self.at(BootPhase::TimedOut)
            } else {
                self.at(BootPhase::AwaitAck { left: (left - 1) as u32 })
            },
            _ => self,
        }
    }

    /// What to do next, or `None` once the start is over.
    pub fn action(&self) -> (a: Option<BootAction>)
        requires
            self.wf(),
        ensures
            a == self.wants(),
    {
        let bit: u32 = 1u32 << (16 + self.cpu);
        Some(
            match self.phase {
                BootPhase::StageClosure => BootAction::Store {
                    addr: self.frame.sp,
                    value: self.frame.f_dst,
                },
                BootPhase::StageBase => BootAction::Store {
                    addr: self.frame.sp + 4,
                    value: self.base,
                },
                BootPhase::ClearAck => BootAction::ClearAck,
                BootPhase::HoldRead => BootAction::ReadReg(CrgReg::Reset),
                BootPhase::HoldWrite { reset } => BootAction::WriteReg(
                    CrgReg::Reset,
                    reset & !bit,
                ),
                BootPhase::VectorStack => BootAction::Store {
                    addr: VECTOR_ISTACK,
                    value: self.frame.sp,
                },
                BootPhase::VectorEntry => BootAction::Store {
                    addr: VECTOR_RESETV,
                    value: self.entry,
                },
                BootPhase::PulseRead => BootAction::ReadReg(CrgReg::Gate),
                BootPhase::PulseOn { gate } => BootAction::WriteReg(CrgReg::Gate, gate | bit),
                BootPhase::PulseOff { gate } => BootAction::WriteReg(CrgReg::Gate, gate & !bit),
                BootPhase::TileLoad { tile } => BootAction::Load { addr: ACNV_P0_DST0 + 4 * tile },
                BootPhase::TileStore { tile, value } => BootAction::Store {
                    addr: ACNV_P0_DST0 + 4 * tile + self.cpu * ACNV_CPU_STRIDE,
                    value,
                },
                BootPhase::Fence => BootAction::Barrier,
                BootPhase::ReleaseRead => BootAction::ReadReg(CrgReg::Reset),
                BootPhase::ReleaseWrite { reset } => BootAction::WriteReg(
                    CrgReg::Reset,
                    reset | bit,
                ),
                BootPhase::ClockRead => BootAction::ReadReg(CrgReg::Gate),
                BootPhase::ClockWrite { gate } => BootAction::WriteReg(CrgReg::Gate, gate | bit),
                BootPhase::AwaitAck { .. } => BootAction::ReadAck,
                BootPhase::Started | BootPhase::TimedOut => {
                    return None;
                },
            },
        )
    }

    /// Takes the reply to the last action.
    pub fn step(self, reply: BootReply) -> (r: Boot)
        requires
            self.wf(),
        ensures
            r == self.next(reply),
            r.wf(),
    {
        let phase = match (self.phase, reply) {
            (BootPhase::StageClosure, BootReply::Done) => BootPhase::StageBase,
            (BootPhase::StageBase, BootReply::Done) => BootPhase::ClearAck,
            (BootPhase::ClearAck, BootReply::Done) => BootPhase::HoldRead,
            (BootPhase::HoldRead, BootReply::Bits(reset)) => BootPhase::HoldWrite { reset },
            (BootPhase::HoldWrite { .. }, BootReply::Done) => BootPhase::VectorStack,
            (BootPhase::VectorStack, BootReply::Done) => BootPhase::VectorEntry,
            (BootPhase::VectorEntry, BootReply::Done) => BootPhase::PulseRead,
            (BootPhase::PulseRead, BootReply::Bits(gate)) => BootPhase::PulseOn { gate },
            (BootPhase::PulseOn { gate }, BootReply::Done) => BootPhase::PulseOff { gate },
            (BootPhase::PulseOff { .. }, BootReply::Done) => BootPhase::TileLoad { tile: 0 },
            (BootPhase::TileLoad { tile }, BootReply::Bits(value)) => BootPhase::TileStore {
                tile,
                value,
            },
            (BootPhase::TileStore { tile, .. }, BootReply::Done) => if tile + 1 < ACNV_TILES {
                BootPhase::TileLoad { tile: tile + 1 }
            } else {
                BootPhase::Fence
            },
            (BootPhase::Fence, BootReply::Done) => BootPhase::ReleaseRead,
            (BootPhase::ReleaseRead, BootReply::Bits(reset)) => BootPhase::ReleaseWrite { reset },
            (BootPhase::ReleaseWrite { .. }, BootReply::Done) => BootPhase::ClockRead,
            (BootPhase::ClockRead, BootReply::Bits(gate)) => BootPhase::ClockWrite { gate },
            (BootPhase::ClockWrite { .. }, BootReply::Done) => BootPhase::AwaitAck {
                left: ACK_BUDGET,
            },
            (BootPhase::AwaitAck { left }, BootReply::Ack(acked)) => if acked {
                BootPhase::Started
            } else if left == 0 {
                BootPhase::TimedOut
            } else {
                BootPhase::AwaitAck { left: left - 1 }
            },
            _ => self.phase,
        };
        Boot { phase, ..self }
    }

    /// How the start ended, or `None` while it runs.
    pub fn outcome(&self) -> (r: Option<Result<(), SpawnError>>)
        ensures
            r == match self.phase {
                BootPhase::Started => Some(Ok::<(), SpawnError>(())),
                BootPhase::TimedOut => Some(Err(SpawnError::Timeout)),
                _ => None,
            },
    {
        match self.phase {
            BootPhase::Started => Some(Ok(())),
            BootPhase::TimedOut => Some(Err(SpawnError::Timeout)),
            _ => None,
        }
    }
}

/// Starts `worker` on the stack of `size` bytes at `base`, with a closure of `f_size` bytes aligned
/// to `f_align` that it enters through the code at `entry`. The closure has to be placed where the
/// frame says before the first action.
pub fn spawn(worker: Worker, base: u32, size: u32, f_size: u32, f_align: u32, entry: u32) -> (r:
    Result<Boot, SpawnError>)
    requires
        worker.target() != Core::Core0,
        base + size <= u32::MAX,
        f_align > 0,
    ensures
        match (frame_for(base, size, f_size, f_align), r) {
            (Ok(frame), Ok(b)) => b == (Boot {
                cpu: worker.target().spec_index() as u32,
                base,
                frame,
                entry,
                phase: BootPhase::StageClosure,
            }) && b.wf(),
            (Err(e), Err(f)) => f == e,
            _ => false,
        },
{
    match boot_frame(base, size, f_size, f_align) {
        Ok(frame) => {
            proof {
                law_frame_fits(base, size, f_size, f_align, frame);
            }
            Ok(
                Boot {
                    cpu: worker.core_id().index() as u32,
                    base,
                    frame,
                    entry,
                    phase: BootPhase::StageClosure,
                },
            )
        },
        Err(e) => Err(e),
    }
}

/// What a start works on.
pub struct Machine {
    pub mem: Map<u32, u32>,
    pub reset: u32,
    pub gate: u32,
    pub acked: bool,
}

/// The machine after an action, and what it answers. A word that was never stored reads as 0.
pub open spec fn performed(m: Machine, a: BootAction) -> (Machine, BootReply) {
    match a {
        BootAction::Store { addr, value } => (
            Machine { mem: m.mem.insert(addr, value), ..m },
            BootReply::Done,
        ),
        BootAction::Load { addr } => (m, BootReply::Bits(word_at(m, addr))),
        BootAction::ReadReg(CrgReg::Reset) => (m, BootReply::Bits(m.reset)),
        BootAction::ReadReg(CrgReg::Gate) => (m, BootReply::Bits(m.gate)),
        BootAction::WriteReg(CrgReg::Reset, value) => (
            Machine { reset: value, ..m },
            BootReply::Done,
        ),
        BootAction::WriteReg(CrgReg::Gate, value) => (Machine { gate: value, ..m }, BootReply::Done),
        BootAction::ClearAck => (Machine { acked: false, ..m }, BootReply::Done),
        BootAction::Barrier => (m, BootReply::Done),
        BootAction::ReadAck => (m, BootReply::Ack(m.acked)),
    }
}

/// The word at an address.
pub open spec fn word_at(m: Machine, addr: u32) -> u32 {
    if m.mem.contains_key(addr) {
        m.mem[addr]
    } else {
        0
    }
}

/// The machine and the start after one action.
pub open spec fn ticked(m: Machine, b: Boot) -> (Machine, Boot) {
    match b.wants() {
        None => (m, b),
        Some(a) => {
            let (m2, reply) = performed(m, a);
            (m2, b.next(reply))
        },
    }
}

/// The machine and the start after `n` actions.
pub open spec fn driven(m: Machine, b: Boot, n: nat) -> (Machine, Boot)
    decreases n,
{
    if n == 0 {
        (m, b)
    } else {
        let (m2, b2) = driven(m, b, (n - 1) as nat);
        ticked(m2, b2)
    }
}

proof fn lemma_driven_add(m: Machine, b: Boot, k: nat, n: nat)
    ensures
        driven(m, b, k + n) == ({
            let (m2, b2) = driven(m, b, k);
            driven(m2, b2, n)
        }),
    decreases n,
{
    if n > 0 {
        lemma_driven_add(m, b, k, (n - 1) as nat);
    }
}

/// The memory with tiles `from` and up of the address map copied to core `cpu`.
pub open spec fn tiles_copied(m: Machine, cpu: u32, from: u32) -> Machine
    decreases ACNV_TILES - from,
{
    if from >= ACNV_TILES {
        m
    } else {
        tiles_copied(
            Machine {
                mem: m.mem.insert(
                    tile_addr(cpu, from) as u32,
                    word_at(m, tile_addr(0, from) as u32),
                ),
                ..m
            },
            cpu,
            (from + 1) as u32,
        )
    }
}

proof fn lemma_tiles_driven(m: Machine, b: Boot, tile: u32)
    requires
        b.wf(),
        b.phase == (BootPhase::TileLoad { tile }),
    ensures
        driven(m, b, (2 * (ACNV_TILES - tile)) as nat) == (
            tiles_copied(m, b.cpu, tile),
            b.at(BootPhase::Fence),
        ),
    decreases ACNV_TILES - tile,
{
    let n = (2 * (ACNV_TILES - tile)) as nat;
    let (m2, b2) = ticked(m, b);
    let (m3, b3) = ticked(m2, b2);
    assert(driven(m, b, 0) == (m, b));
    assert(driven(m, b, 1) == (m2, b2));
    assert(driven(m, b, 2) == (m3, b3));
    lemma_driven_add(m, b, 2, (n - 2) as nat);
    if tile + 1 < ACNV_TILES {
        lemma_tiles_driven(m3, b3, (tile + 1) as u32);
    } else {
        reveal_with_fuel(tiles_copied, 2);
    }
}

proof fn lemma_tiles_elsewhere(m: Machine, cpu: u32, from: u32, addr: u32)
    requires
        1 <= cpu <= 5,
        from <= ACNV_TILES,
        addr < ACNV_P0_DST0,
    ensures
        word_at(tiles_copied(m, cpu, from), addr) == word_at(m, addr),
        tiles_copied(m, cpu, from).reset == m.reset,
        tiles_copied(m, cpu, from).gate == m.gate,
        tiles_copied(m, cpu, from).acked == m.acked,
    decreases ACNV_TILES - from,
{
    if from < ACNV_TILES {
        lemma_tiles_elsewhere(
            Machine {
                mem: m.mem.insert(
                    tile_addr(cpu, from) as u32,
                    word_at(m, tile_addr(0, from) as u32),
                ),
                ..m
            },
            cpu,
            (from + 1) as u32,
            addr,
        );
    }
}

/// The machine when everything but the address map is in place.
pub open spec fn staged(m: Machine, b: Boot) -> Machine {
    Machine {
        mem: m.mem.insert(b.frame.sp, b.frame.f_dst).insert(
            (b.frame.sp + 4) as u32,
            b.base,
        ).insert(VECTOR_ISTACK, b.frame.sp).insert(VECTOR_RESETV, b.entry),
        reset: m.reset & !core_bit(b.cpu),
        gate: m.gate & !core_bit(b.cpu),
        acked: false,
    }
}

/// The machine when the worker is about to be let out of reset.
pub open spec fn prepared(m: Machine, b: Boot) -> Machine {
    tiles_copied(staged(m, b), b.cpu, 0)
}

proof fn lemma_staged(m: Machine, b: Boot)
    requires
        b.wf(),
        b.phase == BootPhase::StageClosure,
    ensures
        driven(m, b, 10) == (staged(m, b), b.at(BootPhase::TileLoad { tile: 0 })),
{
    let m2 = Machine {
        mem: m.mem.insert(b.frame.sp, b.frame.f_dst).insert((b.frame.sp + 4) as u32, b.base),
        ..m
    };
    assert(driven(m, b, 0) == (m, b));
    assert(driven(m, b, 1).1 == b.at(BootPhase::StageBase));
    assert(driven(m, b, 2) == (m2, b.at(BootPhase::ClearAck)));
    let m3 = Machine { acked: false, ..m2 };
    assert(driven(m, b, 3) == (m3, b.at(BootPhase::HoldRead)));
    assert(driven(m, b, 4) == (m3, b.at(BootPhase::HoldWrite { reset: m.reset })));
    let m5 = Machine { reset: m.reset & !core_bit(b.cpu), ..m3 };
    assert(driven(m, b, 5) == (m5, b.at(BootPhase::VectorStack)));
    let m7 = Machine {
        mem: m2.mem.insert(VECTOR_ISTACK, b.frame.sp).insert(VECTOR_RESETV, b.entry),
        ..m5
    };
    assert(driven(m, b, 6).1 == b.at(BootPhase::VectorEntry));
    assert(driven(m, b, 7) == (m7, b.at(BootPhase::PulseRead)));
    assert(driven(m, b, 8) == (m7, b.at(BootPhase::PulseOn { gate: m.gate })));
    assert(driven(m, b, 9) == (
        Machine { gate: m.gate | core_bit(b.cpu), ..m7 },
        b.at(BootPhase::PulseOff { gate: m.gate }),
    ));
}

proof fn lemma_released(m: Machine, b: Boot)
    requires
        b.phase == BootPhase::Fence,
    ensures
        driven(m, b, 5) == (
            Machine {
                reset: m.reset | core_bit(b.cpu),
                gate: m.gate | core_bit(b.cpu),
                ..m
            },
            b.at(BootPhase::AwaitAck { left: ACK_BUDGET }),
        ),
{
    assert(driven(m, b, 0) == (m, b));
    assert(driven(m, b, 1) == (m, b.at(BootPhase::ReleaseRead)));
    assert(driven(m, b, 2) == (m, b.at(BootPhase::ReleaseWrite { reset: m.reset })));
    let m3 = Machine { reset: m.reset | core_bit(b.cpu), ..m };
    assert(driven(m, b, 3) == (m3, b.at(BootPhase::ClockRead)));
    assert(driven(m, b, 4) == (m3, b.at(BootPhase::ClockWrite { gate: m.gate })));
}

/// What a start does. When the worker is let out of reset, which it was put into before the boot
/// words were stored, the argument words are on its stack, the boot words name its stack pointer
/// and its entry, the tiles of the address map were copied to it in order, and a barrier has made
/// all that visible. Then its reset and clock bits are set. The stack has to lie between the boot
/// words and the address maps for its argument words to stay.
pub proof fn law_boot_effect(m: Machine, b: Boot)
    requires
        b.wf(),
        b.phase == BootPhase::StageClosure,
    ensures
        driven(m, b, 10) == (staged(m, b), b.at(BootPhase::TileLoad { tile: 0 })),
        driven(m, b, 34) == (prepared(m, b), b.at(BootPhase::Fence)),
        driven(m, b, 39) == (
            Machine {
                reset: prepared(m, b).reset | core_bit(b.cpu),
                gate: prepared(m, b).gate | core_bit(b.cpu),
                ..prepared(m, b)
            },
            b.at(BootPhase::AwaitAck { left: ACK_BUDGET }),
        ),
        prepared(m, b).reset == m.reset & !core_bit(b.cpu),
        prepared(m, b).gate == m.gate & !core_bit(b.cpu),
        word_at(prepared(m, b), VECTOR_ISTACK) == b.frame.sp,
        word_at(prepared(m, b), VECTOR_RESETV) == b.entry,
        (VECTOR_RESETV < b.frame.sp && b.frame.sp + 4 < ACNV_P0_DST0) ==> {
            &&& word_at(prepared(m, b), b.frame.sp) == b.frame.f_dst
            &&& word_at(prepared(m, b), (b.frame.sp + 4) as u32) == b.base
        },
{
    lemma_staged(m, b);
    let m1 = staged(m, b);
    let b1 = b.at(BootPhase::TileLoad { tile: 0 });
    lemma_tiles_driven(m1, b1, 0);
    lemma_driven_add(m, b, 10, 24);
    lemma_driven_add(m, b, 34, 5);
    lemma_released(prepared(m, b), b.at(BootPhase::Fence));
    lemma_tiles_elsewhere(m1, b.cpu, 0, VECTOR_ISTACK);
    lemma_tiles_elsewhere(m1, b.cpu, 0, VECTOR_RESETV);
    if VECTOR_RESETV < b.frame.sp && b.frame.sp + 4 < ACNV_P0_DST0 {
        lemma_tiles_elsewhere(m1, b.cpu, 0, b.frame.sp);
        lemma_tiles_elsewhere(m1, b.cpu, 0, (b.frame.sp + 4) as u32);
    }
}

/// The worker's address map becomes a copy of that of core 0, which is left as it was. Core 1 is
/// left out: its map begins inside that of core 0, so its first tiles replace the last ones there.
pub proof fn law_address_map_is_copied(m: Machine, cpu: u32, tile: u32)
    requires
        2 <= cpu <= 5,
        tile < ACNV_TILES,
    ensures
        word_at(tiles_copied(m, cpu, 0), tile_addr(cpu, tile) as u32) == word_at(
            m,
            tile_addr(0, tile) as u32,
        ),
        word_at(tiles_copied(m, cpu, 0), tile_addr(0, tile) as u32) == word_at(
            m,
            tile_addr(0, tile) as u32,
        ),
{
    lemma_tile_copied(m, cpu, 0, tile);
}

proof fn lemma_tile_copied(m: Machine, cpu: u32, from: u32, tile: u32)
    requires
        2 <= cpu <= 5,
        tile < ACNV_TILES,
        from <= ACNV_TILES,
    ensures
        word_at(tiles_copied(m, cpu, from), tile_addr(0, tile) as u32) == word_at(
            m,
            tile_addr(0, tile) as u32,
        ),
        word_at(tiles_copied(m, cpu, from), tile_addr(cpu, tile) as u32) == if tile < from {
            word_at(m, tile_addr(cpu, tile) as u32)
        } else {
            word_at(m, tile_addr(0, tile) as u32)
        },
    decreases ACNV_TILES - from,
{
    if from < ACNV_TILES {
        let m2 = Machine {
            mem: m.mem.insert(
                tile_addr(cpu, from) as u32,
                word_at(m, tile_addr(0, from) as u32),
            ),
            ..m
        };
        lemma_tile_copied(m2, cpu, (from + 1) as u32, tile);
    }
}

/// Clearing and setting the bit of a core leaves the bits of all others.
pub proof fn law_other_cores_keep_bits(word: u32, cpu: u32)
    requires
        1 <= cpu <= 5,
    ensures
        ((word & !core_bit(cpu)) | core_bit(cpu)) == word | core_bit(cpu),
        (word | core_bit(cpu)) & !core_bit(cpu) == word & !core_bit(cpu),
        (word | core_bit(cpu)) & core_bit(cpu) != 0,
{
    let bit = core_bit(cpu);
    let k = (16 + cpu) as u32;
    assert(bit != 0) by (bit_vector)
        requires
            bit == 1u32 << k,
            k < 32,
    ;
    assert(((word & !bit) | bit) == word | bit && (word | bit) & !bit == word & !bit && (bit != 0
        ==> (word | bit) & bit != 0)) by (bit_vector);
}

/// A worker that has not acknowledged after the first look and as many more as the budget allows
/// has timed out, and one that has is started at the next look.
pub proof fn law_ack_budget(b: Boot, left: u32, n: nat)
    requires
        b.phase == (BootPhase::AwaitAck { left }),
        n <= left,
    ensures
        b.next(BootReply::Ack(true)).phase == BootPhase::Started,
        missed(b, n).phase == (BootPhase::AwaitAck { left: (left - n) as u32 }),
        missed(b, (left + 1) as nat).phase == BootPhase::TimedOut,
    decreases left,
{
    if left > 0 {
        law_ack_budget(
            b.next(BootReply::Ack(false)),
            (left - 1) as u32,
            if n == 0 {
                0
            } else {
                (n - 1) as nat
            },
        );
    } else {
        reveal_with_fuel(missed, 2);
    }
}

/// The start after the acknowledgement was missing `n` times.
pub open spec fn missed(b: Boot, n: nat) -> Boot
    decreases n,
{
    if n == 0 {
        b
    } else {
        missed(b.next(BootReply::Ack(false)), (n - 1) as nat)
    }
}

/// A frame leaves 64 bytes of stack, has its argument words sixteen bytes below the closure or up to
/// seven more, and ends in the stack. No other frame that does so stands higher, and there is one
/// whenever one is possible: `f_dst` and `sp` stand for any that is.
pub proof fn law_frame_is_highest(
    base: u32,
    size: u32,
    f_size: u32,
    f_align: u32,
    f_dst: int,
    sp: int,
)
    requires
        base + size <= u32::MAX,
        f_align > 0,
    ensures
        match frame_for(base, size, f_size, f_align) {
            Ok(frame) => {
                &&& base + 64 <= frame.sp
                &&& frame.sp as int % 8 == 0
                &&& frame.sp + 16 <= frame.f_dst < frame.sp + 24
                &&& frame.f_dst + f_size <= base + size < frame.f_dst + f_size + f_align
                &&& frame.f_dst as int % f_align as int == 0
            },
            Err(e) => e == SpawnError::StackTooSmall,
        },
        (f_dst % f_align as int == 0 && sp % 8 == 0 && base + 64 <= sp && sp + 16 <= f_dst && f_dst
            + f_size <= base + size) ==> {
            &&& frame_for(base, size, f_size, f_align) matches Ok(frame)
            &&& f_dst <= frame.f_dst
            &&& sp <= frame.sp
        },
{
    let room = base + size - f_size;
    let a = f_align as int;
    vstd::arithmetic::div_mod::lemma_fundamental_div_mod(room, a);
    vstd::arithmetic::div_mod::lemma_mod_bound(room, a);
    if let Ok(frame) = frame_for(base, size, f_size, f_align) {
        law_frame_fits(base, size, f_size, f_align, frame);
    }
    if f_dst % a == 0 && f_dst <= room {
        vstd::arithmetic::div_mod::lemma_fundamental_div_mod(f_dst, a);
        let (q, k) = (room / a, f_dst / a);
        assert(f_dst <= a * q) by (nonlinear_arith)
            requires
                f_dst == a * k,
                f_dst <= room,
                room < a * q + a,
                a > 0,
        ;
    }
}

/// A start takes no notice of a reply to something that it did not ask for, and never changes which
/// core it starts, or with what.
pub proof fn law_start_takes_only_answers(b: Boot, reply: BootReply)
    ensures
        b.next(reply) == b.at(b.next(reply).phase),
        match b.wants() {
            Some(BootAction::Load { .. }) | Some(BootAction::ReadReg(_)) => !(reply is Bits)
                ==> b.next(reply) == b,
            Some(BootAction::ReadAck) => !(reply is Ack) ==> b.next(reply) == b,
            Some(_) => !(reply is Done) ==> b.next(reply) == b,
            None => b.next(reply) == b,
        },
{
}

/// What the bits of a word are after the bit `j` of it was cleared or set.
proof fn lemma_bits(word: u32, j: u32, k: u32)
    requires
        j < 32,
        k < 32,
    ensures
        k != j ==> ((word & !(1u32 << j)) >> k) & 1 == (word >> k) & 1,
        k != j ==> ((word | (1u32 << j)) >> k) & 1 == (word >> k) & 1,
        ((word & !(1u32 << j)) >> j) & 1 == 0,
        ((word | (1u32 << j)) >> j) & 1 == 1,
{
    assert((k != j ==> ((word & !(1u32 << j)) >> k) & 1 == (word >> k) & 1) && (k != j ==> ((word
        | (1u32 << j)) >> k) & 1 == (word >> k) & 1) && ((word & !(1u32 << j)) >> j) & 1 == 0 && ((
    word | (1u32 << j)) >> j) & 1 == 1) by (bit_vector)
        requires
            j < 32,
            k < 32,
    ;
}

/// Whether bit `k` of both registers, and of what was last read of them, is as it was in `m0`.
spec fn keeps_bit(m0: Machine, m: Machine, b: Boot, k: u32) -> bool {
    &&& (m.reset >> k) & 1 == (m0.reset >> k) & 1
    &&& (m.gate >> k) & 1 == (m0.gate >> k) & 1
    &&& match b.phase {
        BootPhase::HoldWrite { reset } | BootPhase::ReleaseWrite { reset } => (reset >> k) & 1 == (
        m0.reset >> k) & 1,
        BootPhase::PulseOn { gate } | BootPhase::PulseOff { gate } | BootPhase::ClockWrite {
            gate,
        } => (gate >> k) & 1 == (m0.gate >> k) & 1,
        _ => true,
    }
}

/// Starting core `c` touches bit 16 + `c` of the reset register and of the clock gate, and no other
/// bit of either, at any time: no other core is stopped or started.
pub proof fn law_start_touches_one_bit(m: Machine, b: Boot, n: nat, k: u32)
    requires
        b.wf(),
        b.phase == BootPhase::StageClosure,
        k < 32,
        k != 16 + b.cpu,
    ensures
        (driven(m, b, n).0.reset >> k) & 1 == (m.reset >> k) & 1,
        (driven(m, b, n).0.gate >> k) & 1 == (m.gate >> k) & 1,
{
    lemma_keeps_bit(m, b, n, k);
}

proof fn lemma_keeps_bit(m: Machine, b: Boot, n: nat, k: u32)
    requires
        b.wf(),
        b.phase == BootPhase::StageClosure,
        k < 32,
        k != 16 + b.cpu,
    ensures
        keeps_bit(m, driven(m, b, n).0, driven(m, b, n).1, k),
        driven(m, b, n).1.cpu == b.cpu,
    decreases n,
{
    if n > 0 {
        lemma_keeps_bit(m, b, (n - 1) as nat, k);
        let b1 = driven(m, b, (n - 1) as nat).1;
        let j = (16 + b.cpu) as u32;
        match b1.phase {
            BootPhase::HoldWrite { reset } | BootPhase::ReleaseWrite { reset } => {
                lemma_bits(reset, j, k);
            },
            BootPhase::PulseOn { gate }
            | BootPhase::PulseOff { gate }
            | BootPhase::ClockWrite { gate } => {
                lemma_bits(gate, j, k);
            },
            _ => {},
        }
    }
}

/// Whether a phase comes after the core was put into reset and before it is let out.
pub open spec fn holds_core(phase: BootPhase) -> bool {
    match phase {
        BootPhase::VectorStack
        | BootPhase::VectorEntry
        | BootPhase::PulseRead
        | BootPhase::PulseOn { .. }
        | BootPhase::PulseOff { .. }
        | BootPhase::TileLoad { .. }
        | BootPhase::TileStore { .. }
        | BootPhase::Fence
        | BootPhase::ReleaseRead
        | BootPhase::ReleaseWrite { .. } => true,
        _ => false,
    }
}

/// Core `c` is in reset, by its bit 16 + `c`, whenever its boot words or its address map are
/// stored; and when its acknowledgement is looked for, it is out of reset and has its clock.
pub proof fn law_core_is_held_then_runs(m: Machine, b: Boot, n: nat)
    requires
        b.wf(),
        b.phase == BootPhase::StageClosure,
    ensures
        ({
            let (m1, b1) = driven(m, b, n);
            let k = (16 + b.cpu) as u32;
            &&& match b1.wants() {
                Some(BootAction::Store { addr, .. }) => b1.phase is StageClosure
                    || b1.phase is StageBase || (m1.reset >> k) & 1 == 0,
                Some(BootAction::ReadAck) => (m1.reset >> k) & 1 == 1 && (m1.gate >> k) & 1 == 1,
                Some(BootAction::Barrier) => (m1.reset >> k) & 1 == 0,
                _ => true,
            }
            &&& b1.phase is Started || b1.phase is TimedOut ==> (m1.reset >> k) & 1 == 1 && (m1.gate
                >> k) & 1 == 1
        }),
{
    lemma_core_held(m, b, n);
}

proof fn lemma_core_held(m: Machine, b: Boot, n: nat)
    requires
        b.wf(),
        b.phase == BootPhase::StageClosure,
    ensures
        ({
            let (m1, b1) = driven(m, b, n);
            let k = (16 + b.cpu) as u32;
            &&& b1.cpu == b.cpu
            &&& holds_core(b1.phase) ==> (m1.reset >> k) & 1 == 0
            &&& match b1.phase {
                BootPhase::ClockRead | BootPhase::ClockWrite { .. } => (m1.reset >> k) & 1 == 1,
                BootPhase::AwaitAck { .. } | BootPhase::Started | BootPhase::TimedOut => (m1.reset
                    >> k) & 1 == 1 && (m1.gate >> k) & 1 == 1,
                _ => true,
            }
        }),
    decreases n,
{
    if n > 0 {
        lemma_core_held(m, b, (n - 1) as nat);
        let b1 = driven(m, b, (n - 1) as nat).1;
        let j = (16 + b.cpu) as u32;
        match b1.phase {
            BootPhase::HoldWrite { reset } | BootPhase::ReleaseWrite { reset } => {
                lemma_bits(reset, j, j);
            },
            BootPhase::ClockWrite { gate } => {
                lemma_bits(gate, j, j);
            },
            _ => {},
        }
    }
}

/// The memory that a started core finds, and that a start leaves. The word at 0x0d00_0000 is its
/// stack pointer and the next one its entry. On its stack, which is taken to lie between those and
/// the address maps, the first word is the address of its closure, and the next one that of the end
/// of its stack. Tile `t` of the map of core `c`, at 0x0e01_2004 + 4 `t` + 32 `c`, is what tile `t`
/// of that of core 0 was; the map of core 1 begins inside that of core 0, so its last four tiles are
/// copies of its first four. No other word changes. All that stands before
/// the barrier that precedes the release. From then on the acknowledgement is looked for at most 5,000,001 times.
pub proof fn law_started_core_finds(m: Machine, b: Boot, t: u32, addr: u32)
    requires
        b.wf(),
        b.phase == BootPhase::StageClosure,
        0x0d00_0004 < b.frame.sp,
        b.frame.sp + 4 < 0x0e01_2004,
        t < 12,
    ensures
        ({
            let (e, b1) = driven(m, b, 39);
            &&& b1.wants() == Some(BootAction::ReadAck)
            &&& b1.phase == (BootPhase::AwaitAck { left: 5_000_000 })
            &&& !e.acked
            &&& driven(m, b, 34).1.wants() == Some(BootAction::Barrier)
            &&& driven(m, b, 34).0.mem == e.mem
            &&& word_at(e, 0x0d00_0000) == b.frame.sp
            &&& word_at(e, 0x0d00_0004) == b.entry
            &&& word_at(e, b.frame.sp) == b.frame.f_dst
            &&& word_at(e, (b.frame.sp + 4) as u32) == b.base
            &&& b.cpu >= 2 ==> word_at(e, (0x0e01_2004 + 4 * t + 32 * b.cpu) as u32) == word_at(
                m,
                (0x0e01_2004 + 4 * t) as u32,
            )
            &&& b.cpu == 1 ==> word_at(e, (0x0e01_2004 + 4 * t + 32) as u32) == word_at(
                m,
                (0x0e01_2004 + 4 * (t as int % 8)) as u32,
            )
            &&& (addr != 0x0d00_0000 && addr != 0x0d00_0004 && addr != b.frame.sp && addr
                != b.frame.sp + 4 && !(0x0e01_2004 + 32 * b.cpu <= addr < 0x0e01_2004 + 32 * b.cpu
                + 48)) ==> word_at(e, addr) == word_at(m, addr)
        }),
{
    law_boot_effect(m, b);
    let s = staged(m, b);
    let e = driven(m, b, 39).0;
    assert(forall|x: u32| word_at(e, x) == word_at(prepared(m, b), x));
    if b.cpu >= 2 {
        law_address_map_is_copied(s, b.cpu, t);
        assert(word_at(s, (0x0e01_2004 + 4 * t) as u32) == word_at(
            m,
            (0x0e01_2004 + 4 * t) as u32,
        ));
    } else {
        lemma_first_core_tiles(s, 0, t);
    }
    if !(0x0e01_2004 + 32 * b.cpu <= addr < 0x0e01_2004 + 32 * b.cpu + 48) {
        lemma_tiles_outside(s, b.cpu, 0, addr);
    }
    lemma_tiles_elsewhere(s, b.cpu, 0, 0);
}

proof fn lemma_first_core_tiles(m: Machine, from: u32, t: u32)
    requires
        from <= ACNV_TILES,
        from <= t < ACNV_TILES,
    ensures
        word_at(tiles_copied(m, 1, from), (0x0e01_2004 + 4 * t + 32) as u32) == word_at(
            m,
            (0x0e01_2004 + 4 * (if t >= 8 + from {
                t - 8
            } else {
                t as int
            })) as u32,
        ),
    decreases ACNV_TILES - from,
{
    let m2 = Machine {
        mem: m.mem.insert(tile_addr(1, from) as u32, word_at(m, tile_addr(0, from) as u32)),
        ..m
    };
    if t > from {
        lemma_first_core_tiles(m2, (from + 1) as u32, t);
    } else {
        lemma_later_tiles(m2, (from + 1) as u32, t);
    }
}

proof fn lemma_later_tiles(m: Machine, from: u32, t: u32)
    requires
        t < from <= ACNV_TILES,
    ensures
        word_at(tiles_copied(m, 1, from), (0x0e01_2004 + 4 * t + 32) as u32) == word_at(
            m,
            (0x0e01_2004 + 4 * t + 32) as u32,
        ),
    decreases ACNV_TILES - from,
{
    if from < ACNV_TILES {
        let m2 = Machine {
            mem: m.mem.insert(tile_addr(1, from) as u32, word_at(m, tile_addr(0, from) as u32)),
            ..m
        };
        lemma_later_tiles(m2, (from + 1) as u32, t);
    }
}

proof fn lemma_tiles_outside(m: Machine, cpu: u32, from: u32, addr: u32)
    requires
        1 <= cpu <= 5,
        from <= ACNV_TILES,
        !(0x0e01_2004 + 32 * cpu <= addr < 0x0e01_2004 + 32 * cpu + 48),
    ensures
        word_at(tiles_copied(m, cpu, from), addr) == word_at(m, addr),
    decreases ACNV_TILES - from,
{
    if from < ACNV_TILES {
        let m2 = Machine {
            mem: m.mem.insert(
                tile_addr(cpu, from) as u32,
                word_at(m, tile_addr(0, from) as u32),
            ),
            ..m
        };
        lemma_tiles_outside(m2, cpu, (from + 1) as u32, addr);
    }
}

} // verus!
