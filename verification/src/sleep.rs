//! Deep and cold sleep.
//!
//! Both states power most of the chip off and end with a full boot on a wake event. The boot mask,
//! a word that survives, holds the enabled wake sources. Going to sleep is a remote call that does
//! not come back: the chip powers down while it runs.

use vstd::prelude::*;

use crate::farapi;
use crate::farapi::{call, FarCall, CPUID_SYSIOP, DEFAULT_POLL_BUDGET};
use crate::icc::{Action, Reply};

pub mod boot;

verus! {

/// Where the cause of the last boot stands.
pub const BOOTCAUSE_ADDR: u32 = 0x0440_0020;

/// Where the boot mask stands.
pub const BOOTMASK_ADDR: u32 = 0x0440_0024;

/// Power management, a module of the system and I/O firmware.
pub const POWER_MGR_MODID: i32 = 0;

/// Go to cold sleep.
pub const FW_PM_COLDSLEEP_API_ID: i32 = 80;

/// Go to deep sleep.
pub const FW_PM_DEEPSLEEP_API_ID: i32 = 84;

/// The sources that cannot be disabled: power-on, watchdog, USB attach, and what the firmware
/// defines.
pub const NON_MASKABLE: u32 = 0x0000_00c7;

/// The sources of which one has to stay enabled, or the chip could not wake from deep sleep: the
/// short press and the real-time clock.
pub const DEEP_PROHIBIT: u32 = 0x0000_0030;

/// The two sets of sources are what their names say.
pub proof fn law_source_sets()
    ensures
        NON_MASKABLE == boot::POR_NORMAL | boot::POR_DEADBATT | boot::WDT_REBOOT | boot::WDT_RESET
            | boot::DEEP_USB_ATTACH | boot::DEEP_OTHERS,
        DEEP_PROHIBIT == boot::DEEP_WKUPS | boot::DEEP_RTC,
        NON_MASKABLE & DEEP_PROHIBIT == 0,
{
    assert(0xc7u32 == 0u32 | 1u32 | 2u32 | 4u32 | 0x40u32 | 0x80u32 && 0x30u32 == 0x10u32 | 0x20u32
        && 0xc7u32 & 0x30u32 == 0) by (bit_vector);
}

/// The mask `current` with the sources of `mask` disabled, as far as they may be.
pub open spec fn cleared(current: u32, mask: u32) -> u32 {
    let wanted = mask & !NON_MASKABLE;
    let allowed = if (current & !wanted) & DEEP_PROHIBIT == 0 {
        wanted & !DEEP_PROHIBIT
    } else {
        wanted
    };
    current & !allowed
}

/// Enables the wake sources of `mask`: gives the boot mask that is to replace `current`.
pub fn set_boot_mask(current: u32, mask: u32) -> (new: u32)
    ensures
        new == current | mask,
        new & mask == mask,
        new & current == current,
{
    proof {
        assert((current | mask) & mask == mask && (current | mask) & current == current)
            by (bit_vector);
    }
    current | mask
}

/// Disables the wake sources of `mask`: gives the boot mask that is to replace `current`. Sources
/// that cannot be disabled stay. If neither the short press nor the real-time clock would be left,
/// both stay as they are.
pub fn clear_boot_mask(current: u32, mask: u32) -> (new: u32)
    ensures
        new == cleared(current, mask),
{
    let mut mask: u32 = mask & !NON_MASKABLE;
    if (current & !mask) & DEEP_PROHIBIT == 0 {
        mask = mask & !DEEP_PROHIBIT;
    }
    current & !mask
}

/// Disabling sources never enables one, never disables one that was not asked for or that cannot
/// be disabled, and never leaves deep sleep without a wake source that it had.
pub proof fn law_clear_is_safe(current: u32, mask: u32)
    ensures
        cleared(current, mask) & !current == 0,
        current & !mask & !cleared(current, mask) == 0,
        cleared(current, mask) & NON_MASKABLE == current & NON_MASKABLE,
        current & DEEP_PROHIBIT != 0 ==> cleared(current, mask) & DEEP_PROHIBIT != 0,
{
    let wanted = mask & !0xc7u32;
    let kept = wanted & !0x30u32;
    assert((current & !wanted) & !current == 0 && (current & !kept) & !current == 0 && current
        & !mask & !(current & !wanted) == 0 && current & !mask & !(current & !kept) == 0 && (current
        & !wanted) & 0xc7 == current & 0xc7 && (current & !kept) & 0xc7 == current & 0xc7 && (current
        & 0x30 != 0 ==> (current & !kept) & 0x30 != 0)) by (bit_vector)
        requires
            wanted == mask & !0xc7u32,
            kept == wanted & !0x30u32,
    ;
}

/// A request that leaves deep sleep a wake source is carried out in full, but for the sources that
/// cannot be disabled.
pub proof fn law_clear_is_complete(current: u32, mask: u32)
    requires
        (current & !mask) & DEEP_PROHIBIT != 0,
    ensures
        cleared(current, mask) & (mask & !NON_MASKABLE) == 0,
{
    let wanted = mask & !0xc7u32;
    assert((current & !wanted) & 0x30 != 0 && (current & !wanted) & wanted == 0) by (bit_vector)
        requires
            wanted == mask & !0xc7u32,
            (current & !mask) & 0x30 != 0,
    ;
}

/// What going to sleep asks for.
#[derive(Clone, Copy, Debug)]
pub enum SleepAction {
    /// An operation of the remote call: [`SleepReply::Call`].
    Call(Action),
    /// Wait until every memory access is complete: [`SleepReply::Done`].
    SyncBarrier,
    /// Stop the core until an interrupt: [`SleepReply::Done`].
    Halt,
}

/// The answer to a [`SleepAction`].
#[derive(Clone, Copy, Debug)]
pub enum SleepReply {
    Call(Reply),
    Done,
}

/// Going to sleep. It does not end: if the call should come back, the core is stopped for good.
#[derive(Clone, Copy, Debug)]
pub enum Sleep {
    /// The argument buffer has no address yet.
    Stage { api_id: i32 },
    Calling(FarCall),
    SyncBarrier,
    Halted,
}

impl Sleep {
    pub open spec fn wants(self) -> SleepAction {
        match self {
            Sleep::Stage { .. } => SleepAction::Call(Action::Stage([0, 0, 0, 0])),
            Sleep::Calling(c) => match c.wants() {
                Some(a) => SleepAction::Call(a),
                None => SleepAction::SyncBarrier,
            },
            Sleep::SyncBarrier => SleepAction::SyncBarrier,
            Sleep::Halted => SleepAction::Halt,
        }
    }

    pub open spec fn next(self, reply: SleepReply) -> Sleep {
        match (self, reply) {
            (Sleep::Stage { api_id }, SleepReply::Call(Reply::Staged { cpuid, arg })) => {
                Sleep::Calling(
                    FarCall {
                        msg: farapi::block_for(cpuid, POWER_MGR_MODID, api_id, arg),
                        dest_cpu: CPUID_SYSIOP,
                        budget: DEFAULT_POLL_BUDGET,
                        phase: farapi::Phase::Publish,
                    },
                )
            },
            (Sleep::Calling(c), SleepReply::Call(r)) => if c.next(r).result() is Some {
                Sleep::SyncBarrier
            } else {
                Sleep::Calling(c.next(r))
            },
            (Sleep::SyncBarrier, SleepReply::Done) => Sleep::Halted,
            _ => self,
        }
    }

    pub fn action(&self) -> (a: SleepAction)
        ensures
            a == self.wants(),
    {
        match self {
            Sleep::Stage { .. } => SleepAction::Call(Action::Stage([0, 0, 0, 0])),
            Sleep::Calling(c) => match c.action() {
                Some(a) => SleepAction::Call(a),
                None => SleepAction::SyncBarrier,
            },
            Sleep::SyncBarrier => SleepAction::SyncBarrier,
            Sleep::Halted => SleepAction::Halt,
        }
    }

    pub fn step(self, reply: SleepReply) -> (s: Sleep)
        ensures
            s == self.next(reply),
    {
        match (self, reply) {
            (Sleep::Stage { api_id }, SleepReply::Call(Reply::Staged { cpuid, arg })) => {
                Sleep::Calling(call(cpuid, POWER_MGR_MODID, api_id, arg, DEFAULT_POLL_BUDGET))
            },
            (Sleep::Calling(c), SleepReply::Call(r)) => {
                let c2 = c.step(r);
                if c2.outcome().is_some() {
                    Sleep::SyncBarrier
                } else {
                    Sleep::Calling(c2)
                }
            },
            (Sleep::SyncBarrier, SleepReply::Done) => Sleep::Halted,
            _ => self,
        }
    }
}

/// Starts to go to deep sleep. The short press or the real-time clock must be an enabled source.
pub fn deep_sleep() -> (s: Sleep)
    ensures
        s == (Sleep::Stage { api_id: FW_PM_DEEPSLEEP_API_ID }),
{
    Sleep::Stage { api_id: FW_PM_DEEPSLEEP_API_ID }
}

/// Starts to go to cold sleep.
pub fn cold_sleep() -> (s: Sleep)
    ensures
        s == (Sleep::Stage { api_id: FW_PM_COLDSLEEP_API_ID }),
{
    Sleep::Stage { api_id: FW_PM_COLDSLEEP_API_ID }
}

/// Going to sleep never hands control back: whether the call succeeds or times out, the core ends
/// up halted, and stays so.
pub proof fn law_sleep_never_returns(s: Sleep, reply: SleepReply)
    ensures
        s == Sleep::Halted ==> s.next(reply) == Sleep::Halted && s.wants() == SleepAction::Halt,
        s == Sleep::SyncBarrier ==> s.next(SleepReply::Done) == Sleep::Halted,
        s matches Sleep::Calling(c) ==> (reply matches SleepReply::Call(r) ==> (c.next(
            r,
        ).result() is Some ==> s.next(reply) == Sleep::SyncBarrier)),
{
}

/// Which sources are left when some are disabled, source by source: the bits 0 to 2, 6 and 7 stay as
/// they were; a bit that was not named stays; bits 4 and 5 stay as they were if the request would
/// leave neither of them; and every other bit that was named is clear.
pub proof fn law_clear_source_by_source(current: u32, mask: u32)
    ensures
        cleared(current, mask) & 0xc7 == current & 0xc7,
        cleared(current, mask) & !mask == current & !mask,
        cleared(current, mask) & mask & 0xffff_ff08 == 0,
        cleared(current, mask) & 0x30 == if current & !mask & 0x30 == 0 {
            current & 0x30
        } else {
            current & !mask & 0x30
        },
{
    let wanted = mask & !0xc7u32;
    let kept = wanted & !0x30u32;
    assert((current & !wanted) & 0xc7 == current & 0xc7 && (current & !kept) & 0xc7 == current & 0xc7
        && (current & !wanted) & !mask == current & !mask && (current & !kept) & !mask == current
        & !mask && (current & !wanted) & mask & 0xffff_ff08 == 0 && (current & !kept) & mask
        & 0xffff_ff08 == 0 && (current & !kept) & 0x30 == current & 0x30 && (current & !wanted)
        & 0x30 == current & !mask & 0x30) by (bit_vector)
        requires
            wanted == mask & !0xc7u32,
            kept == wanted & !0x30u32,
    ;
}

/// Going to sleep is a call of module 0 on core 0, with function 84 for deep sleep and 80 for cold
/// sleep, and four words of zero as its arguments. The cause of a boot and the boot mask stand in
/// two words of memory, one after the other.
pub proof fn law_sleep_calls(cpuid: u8, arg: u32, api_id: i32)
    ensures
        FW_PM_DEEPSLEEP_API_ID == 84,
        FW_PM_COLDSLEEP_API_ID == 80,
        BOOTCAUSE_ADDR == 0x0440_0020,
        BOOTMASK_ADDR == 0x0440_0024,
        (Sleep::Stage { api_id }).wants() matches SleepAction::Call(Action::Stage(a)) && a[0] == 0
            && a[1] == 0 && a[2] == 0 && a[3] == 0,
        (Sleep::Stage { api_id }).next(
            SleepReply::Call(Reply::Staged { cpuid, arg }),
        ) matches Sleep::Calling(c) && c.dest_cpu == 0 && c.budget == 5_000_000 && c.msg.modid == 0
            && c.msg.api.id == api_id && c.msg.api.arg == arg && c.msg.cpuid == cpuid && c.wants()
            == Some(Action::Publish(c.msg)),
{
}

/// The call runs on undisturbed until it is over, and only then is the core stopped, after a
/// barrier.
pub proof fn law_sleep_order(s: Sleep, reply: SleepReply)
    ensures
        s matches Sleep::Calling(c) ==> {
            &&& c.wants() matches Some(a) ==> s.wants() == SleepAction::Call(a)
            &&& match s.next(reply) {
                Sleep::Calling(d) => match reply {
                    SleepReply::Call(answer) => d == c.next(answer) && d.result() is None,
                    SleepReply::Done => d == c,
                },
                Sleep::SyncBarrier => reply is Call && c.next(reply->Call_0).result() is Some,
                _ => false,
            }
        },
        s is SyncBarrier ==> s.wants() is SyncBarrier && s.next(reply) == if reply is Done {
            Sleep::Halted
        } else {
            s
        },
        s is Stage ==> match s.next(reply) {
            Sleep::Calling(_) => reply matches SleepReply::Call(answer) && answer is Staged,
            other => other == s && !(reply matches SleepReply::Call(answer) && answer is Staged),
        },
        s is Halted ==> s.wants() is Halt && s.next(reply) == s,
{
}

} // verus!
