//! Deadlines on the real-time clock.

use vstd::prelude::*;

use crate::icc::Reply;

verus! {

/// Ticks in a second.
pub const RTC_HZ: u64 = 32_768;

/// How many ticks the clock can show: a 32-bit post-counter over a 15-bit pre-counter.
pub open spec fn tick_limit() -> int {
    0x8000_0000_0000
}

/// The tick that the three counter readings show, if the post-counter did not move between them.
pub open spec fn ticks(hi: u32, lo: u32, again: u32) -> Option<u64> {
    if hi == again {
        Some((hi * 0x8000 + lo % 0x8000) as u64)
    } else {
        None
    }
}

/// Whether a reply is a clock reading that shows `tick`.
pub open spec fn shows(reply: Reply, tick: u64) -> bool {
    reply matches Reply::Rtc { hi, lo, again } && ticks(hi, lo, again) == Some(tick)
}

/// Whether a reply is a clock reading that shows no tick.
pub open spec fn is_torn(reply: Reply) -> bool {
    reply matches Reply::Rtc { hi, lo, again } && ticks(hi, lo, again) is None
}

/// Milliseconds as ticks, rounded up.
pub open spec fn ticks_in_ms(ms: u32) -> int {
    (ms * 32_768 + 999) / 1000
}

/// Combines the post-counter `hi`, the pre-counter `lo` and a second reading of the post-counter
/// into the current tick, or `None` if the clock moved on in between.
pub fn rtc_now(hi: u32, lo: u32, again: u32) -> (now: Option<u64>)
    ensures
        now == ticks(hi, lo, again),
        now matches Some(t) ==> t < tick_limit(),
{
    if hi == again {
        proof {
            assert(lo & 0x7fff == lo % 0x8000) by (bit_vector);
            let wide = hi as u64;
            let low = (lo & 0x7fff) as u64;
            assert((wide << 15) | low == wide * 0x8000 + low) by (bit_vector)
                requires
                    wide < 0x1_0000_0000,
                    low < 0x8000,
            ;
        }
        Some(((hi as u64) << 15) | (lo & 0x7fff) as u64)
    } else {
        None
    }
}

/// The first tick at which at least `ms` milliseconds have passed since `now`.
pub fn deadline_after_ms(now: u64, ms: u32) -> (deadline: u64)
    requires
        now < tick_limit(),
    ensures
        deadline == now + ticks_in_ms(ms),
{
    now + (ms as u64 * RTC_HZ + 999) / 1000
}

/// A deadline is never early, and late by less than a tick.
pub proof fn law_deadline_is_tight(ms: u32)
    ensures
        ms * 32_768 <= ticks_in_ms(ms) * 1000 < ms * 32_768 + 1000,
{
}

/// Milliseconds until `ready_at`, rounded up, and 0 once it has come. A count that does not fit is
/// cut to 32 bits.
pub fn remaining_ms(ready_at: u64, now: u64) -> (ms: u32)
    requires
        ready_at < 2 * tick_limit(),
    ensures
        ms == if now >= ready_at {
            0
        } else {
            ((ready_at - now) * 1000 + 32_767) / 32_768 % 0x1_0000_0000
        },
        now < ready_at && (ready_at - now) * 1000 <= 32_768 * 0xffff_ffff ==> (ready_at - now)
            * 1000 <= ms * 32_768 < (ready_at - now) * 1000 + 32_768,
{
    if now >= ready_at {
        return 0;
    }
    let whole: u64 = ((ready_at - now) * 1000 + (RTC_HZ - 1)) / RTC_HZ;
    proof {
        assert(whole as u32 == whole % 0x1_0000_0000) by (bit_vector);
    }
    #[verifier::truncate]
    (whole as u32)
}

/// A tick counts the post-counter in 32768ths, and a reading shows one exactly if the post-counter
/// did not move while the pre-counter was read.
pub proof fn law_ticks_combine_counters(hi: u32, lo: u32, again: u32, later: u32)
    ensures
        ticks(hi, lo, again) is Some <==> hi == again,
        ticks(hi, lo, again) matches Some(t) ==> t == 32_768 * hi + lo as int % 32_768,
        hi < later ==> ticks(hi, lo, hi)->0 < ticks(later, 0, later)->0,
{
}

} // verus!
