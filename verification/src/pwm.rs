//! Channels 0 and 1 of the pulse width modulator.
//!
//! The modulator counts ticks of the SCU clock, divided by a power of two. A cycle takes a 16-bit
//! number of those ticks, the period, and the output is low for the first part of it, the
//! off-period. A duty is a fraction of 65536; 0 and 65535 stand for an output that is always low
//! and always high.
//!
//! A channel decides which registers to write, in which order ([`RegWrite`]); the caller writes
//! them. The SCU clock does not move with the operating point, so a channel keeps its rate.

use vstd::prelude::*;

use crate::clocks::Clocks;
use crate::pac;
use crate::pac::pwm::{RegisterBlock, Words};
use vstd::arithmetic::power2;

verus! {

/// Why a channel could not be set up.
#[derive(Clone, Copy, Debug, PartialEq, Eq, Structural)]
pub enum PwmError {
    /// The SCU clock does not run.
    ClockUnavailable,
    /// The frequency is 0, or more than half the SCU clock, rounded up.
    FreqOutOfRange,
    /// The low part of a cycle would be too short for the hardware.
    DutyOutOfRange,
}

/// Whether the modulator can make a frequency.
pub open spec fn freq_in_range(freq_hz: u32, scu_hz: u32) -> bool {
    0 < freq_hz <= (scu_hz + 1) / 2
}

/// Whether a cycle fits the counter with the clock divided by `2^n`.
pub open spec fn fits(freq_hz: u32, scu_hz: u32, n: nat) -> bool {
    freq_hz > scu_hz as nat / power2::pow2(n) / 65535
}

/// The least exponent from `n` to 8 with which a cycle fits, or 0 if there is none.
pub open spec fn first_fit(freq_hz: u32, scu_hz: u32, n: nat) -> nat
    decreases 9 - n,
{
    if n > 8 {
        0
    } else if fits(freq_hz, scu_hz, n) {
        n
    } else {
        first_fit(freq_hz, scu_hz, n + 1)
    }
}

/// The exponent of the clock's divisor. It is 0 unless the cycle is long; whether it is, is
/// decided on 32 bits of 256 times the frequency.
pub open spec fn prescale_for(freq_hz: u32, scu_hz: u32) -> nat {
    if freq_hz * 256 % 0x1_0000_0000 < scu_hz / 256 {
        first_fit(freq_hz, scu_hz, 1)
    } else {
        0
    }
}

/// The period register: the ticks of a cycle, rounded, and one fewer where the clock is not
/// divided. What does not fit 16 bits is cut to the largest that does.
pub open spec fn period_for(freq_hz: u32, scu_hz: u32) -> int {
    let n = prescale_for(freq_hz, scu_hz);
    let period = if n > 0 {
        (scu_hz * 10 / (power2::pow2(n) as int) % 0x1_0000_0000 / (freq_hz as int) + 5) / 10
    } else {
        (scu_hz * 10 / (freq_hz as int) - 5) / 10
    };
    if period > 0xffff {
        0xffff
    } else {
        period
    }
}

/// The low part of a cycle before it is held against the period.
pub open spec fn raw_off_for(duty: u16, period: int, n: nat) -> int {
    if n > 0 {
        ((0x1_0000 - duty) * period + power2::pow2((16 - n) as nat)) / 0x1_0000
    } else {
        ((0x1_0000 - duty) * (period + 1) + 0x8000) / 0x1_0000
    }
}

/// The off-period register.
pub open spec fn off_for(freq_hz: u32, duty: u16, scu_hz: u32) -> int {
    let period = period_for(freq_hz, scu_hz);
    let off = raw_off_for(duty, period, prescale_for(freq_hz, scu_hz));
    if off > period {
        period
    } else {
        off
    }
}

/// The contents of the PARAM and PHASE registers, or why there are none.
pub open spec fn timing(freq_hz: u32, duty: u16, scu_hz: u32) -> Result<(u32, u32), PwmError> {
    let n = prescale_for(freq_hz, scu_hz);
    let period = period_for(freq_hz, scu_hz);
    if !freq_in_range(freq_hz, scu_hz) {
        Err(PwmError::FreqOutOfRange)
    } else if n > 0 && raw_off_for(duty, period, n) < 2 {
        Err(PwmError::DutyOutOfRange)
    } else {
        Ok(
            (
                (period + off_for(freq_hz, duty, scu_hz) * 0x1_0000) as u32,
                (n * 0x1_0000) as u32,
            ),
        )
    }
}

/// Whether ten times the SCU clock fits the 32 bits in which an undivided period is computed.
pub open spec fn computable(freq_hz: u32, scu_hz: u32) -> bool {
    freq_in_range(freq_hz, scu_hz) && prescale_for(freq_hz, scu_hz) == 0 ==> scu_hz * 10 <= u32::MAX
}

proof fn lemma_first_fit(freq_hz: u32, scu_hz: u32, n: nat)
    requires
        1 <= n <= 9,
    ensures
        ({
            let m = first_fit(freq_hz, scu_hz, n);
            &&& m == 0 || n <= m <= 8
            &&& m > 0 ==> fits(freq_hz, scu_hz, m)
            &&& forall|k: nat| n <= k <= 8 && (m == 0 || k < m) ==> !fits(freq_hz, scu_hz, k)
        }),
    decreases 9 - n,
{
    if n <= 8 && !fits(freq_hz, scu_hz, n) {
        lemma_first_fit(freq_hz, scu_hz, n + 1);
    }
}

/// A divided clock is divided by the least power of two with which a cycle fits the counter, and
/// such a cycle is never cut.
pub proof fn law_prescale_is_least(freq_hz: u32, scu_hz: u32)
    requires
        freq_hz > 0,
        prescale_for(freq_hz, scu_hz) > 0,
    ensures
        ({
            let n = prescale_for(freq_hz, scu_hz);
            &&& 1 <= n <= 8
            &&& fits(freq_hz, scu_hz, n)
            &&& forall|k: nat| 1 <= k < n ==> !fits(freq_hz, scu_hz, k)
            &&& scu_hz * 10 / (power2::pow2(n) as int) / (freq_hz as int) <= 655_350
            &&& period_for(freq_hz, scu_hz) == (scu_hz * 10 / (power2::pow2(n) as int)
                % 0x1_0000_0000 / (freq_hz as int) + 5) / 10
        }),
{
    lemma_first_fit(freq_hz, scu_hz, 1);
    let n = prescale_for(freq_hz, scu_hz);
    power2::lemma_pow2_pos(n);
    let d = power2::pow2(n) as int;
    let f = freq_hz as int;
    let q = scu_hz as int / d;
    let scaled = scu_hz * 10 / d;
    assert(q / 65535 < f);
    assert(q < 65535 * f);
    assert(scaled <= 10 * q + 9) by (nonlinear_arith)
        requires
            d > 0,
            q == scu_hz as int / d,
            scaled == scu_hz * 10 / d,
    ;
    assert(scaled >= 0) by (nonlinear_arith)
        requires
            d > 0,
            scaled == scu_hz * 10 / d,
    ;
    let cut = scaled % 0x1_0000_0000;
    assert(scaled / f <= 655_350 && cut / f <= 655_350) by (nonlinear_arith)
        requires
            0 <= cut <= scaled <= 655_350 * f,
            f > 0,
    ;
}

fn pick_prescale(freq_hz: u32, scu_hz: u32) -> (n: u32)
    ensures
        n == prescale_for(freq_hz, scu_hz),
        n <= 8,
{
    proof {
        assert(freq_hz << 8 == freq_hz * 256 % 0x1_0000_0000) by (bit_vector);
        assert(scu_hz >> 8 == scu_hz / 256) by (bit_vector);
        lemma_first_fit(freq_hz, scu_hz, 1);
    }
    if (freq_hz << 8) >= (scu_hz >> 8) {
        return 0;
    }
    let mut n: u32 = 1;
    while n <= 8
        invariant
            1 <= n <= 9,
            first_fit(freq_hz, scu_hz, 1) == first_fit(freq_hz, scu_hz, n as nat),
            prescale_for(freq_hz, scu_hz) == first_fit(freq_hz, scu_hz, 1),
        decreases 9 - n,
    {
        proof {
            vstd::bits::lemma_u32_shr_is_div(scu_hz, n);
        }
        if freq_hz > (scu_hz >> n) / 65535 {
            return n;
        }
        n = n + 1;
    }
    0
}

fn pick_period(freq_hz: u32, scu_hz: u32, n: u32) -> (period: u32)
    requires
        freq_in_range(freq_hz, scu_hz),
        computable(freq_hz, scu_hz),
        n == prescale_for(freq_hz, scu_hz),
        n <= 8,
    ensures
        period == period_for(freq_hz, scu_hz),
        period <= 0xffff,
{
    let period: u32 = if n > 0 {
        let scaled: u64 = (scu_hz as u64 * 10) >> n;
        proof {
            vstd::bits::lemma_u64_shr_is_div((scu_hz * 10) as u64, n as u64);
            assert(scaled as u32 == scaled % 0x1_0000_0000) by (bit_vector);
            law_prescale_is_least(freq_hz, scu_hz);
            power2::lemma_pow2_pos(n as nat);
            let cut = scaled as int % 0x1_0000_0000;
            assert(cut / (freq_hz as int) <= scaled as int / (freq_hz as int)) by (nonlinear_arith)
                requires
                    0 <= cut <= scaled,
                    freq_hz > 0,
            ;
        }
        ((#[verifier::truncate] (scaled as u32)) / freq_hz + 5) / 10
    } else {
        proof {
            lemma_undivided_ticks(freq_hz, scu_hz);
        }
        (scu_hz * 10 / freq_hz - 5) / 10
    };
    if period > 0xffff {
        0xffff
    } else {
        period
    }
}

/// A cycle of an allowed frequency takes at least one tick.
proof fn lemma_undivided_ticks(freq_hz: u32, scu_hz: u32)
    requires
        freq_in_range(freq_hz, scu_hz),
    ensures
        scu_hz * 10 / (freq_hz as int) >= 10,
{
    assert(scu_hz * 10 / (freq_hz as int) >= 10) by (nonlinear_arith)
        requires
            0 < freq_hz <= scu_hz,
    ;
}

/// Computes the PARAM and PHASE registers for a frequency and a duty.
pub fn compute_param_phase(freq_hz: u32, duty: u16, scu_hz: u32) -> (r: Result<
    (u32, u32),
    PwmError,
>)
    requires
        computable(freq_hz, scu_hz),
    ensures
        r == timing(freq_hz, duty, scu_hz),
{
    if freq_hz == 0 || freq_hz as u64 > (scu_hz as u64 + 1) / 2 {
        return Err(PwmError::FreqOutOfRange);
    }
    let prescale: u32 = pick_prescale(freq_hz, scu_hz);
    let period: u32 = pick_period(freq_hz, scu_hz, prescale);
    let high: u64 = 0x1_0000 - duty as u64;
    proof {
        assert(high * period <= 0x1_0000 * 0xffff) by (nonlinear_arith)
            requires
                high <= 0x1_0000,
                period <= 0xffff,
        ;
        assert(high * (period + 1) == high * period + high) by (nonlinear_arith);
        power2::lemma2_to64();
    }
    let off: u64 = if prescale > 0 {
        proof {
            let k = (16 - prescale) as u64;
            vstd::bits::lemma_u64_shl_is_mul(1, k);
            assert(8 <= k <= 15);
        }
        (high * period as u64 + (1u64 << (16 - prescale) as u64)) / 0x1_0000
    } else {
        (high * (period as u64 + 1) + 0x8000) / 0x1_0000
    };
    if prescale > 0 && off < 2 {
        return Err(PwmError::DutyOutOfRange);
    }
    let off: u32 = if off > period as u64 {
        period
    } else {
        off as u32
    };
    proof {
        assert((period & 0xffff) | ((off & 0xffff) << 16) == period + off * 0x1_0000)
            by (bit_vector)
            requires
                period <= 0xffff,
                off <= 0xffff,
        ;
        assert(prescale << 16 == prescale * 0x1_0000) by (bit_vector)
            requires
                prescale <= 8,
        ;
    }
    Ok(((period & 0xffff) | ((off & 0xffff) << 16), prescale << 16))
}

/// Tells whether the registers for a frequency can be computed with this SCU clock.
pub fn is_computable(freq_hz: u32, scu_hz: u32) -> (r: bool)
    ensures
        r == computable(freq_hz, scu_hz),
{
    if freq_hz == 0 || freq_hz as u64 > (scu_hz as u64 + 1) / 2 {
        return true;
    }
    pick_prescale(freq_hz, scu_hz) > 0 || scu_hz as u64 * 10 <= u32::MAX as u64
}

/// The low part of a cycle is never longer than the cycle, and both fit their halves of PARAM.
pub proof fn law_timing_fields(freq_hz: u32, duty: u16, scu_hz: u32)
    requires
        timing(freq_hz, duty, scu_hz) is Ok,
    ensures
        ({
            let (param, phase) = timing(freq_hz, duty, scu_hz)->Ok_0;
            &&& param % 0x1_0000 == period_for(freq_hz, scu_hz)
            &&& param / 0x1_0000 == off_for(freq_hz, duty, scu_hz)
            &&& 0 <= off_for(freq_hz, duty, scu_hz) <= period_for(freq_hz, scu_hz) <= 0xffff
            &&& phase / 0x1_0000 == prescale_for(freq_hz, scu_hz) <= 8
        }),
{
    lemma_first_fit(freq_hz, scu_hz, 1);
    let n = prescale_for(freq_hz, scu_hz);
    let period = period_for(freq_hz, scu_hz);
    power2::lemma_pow2_pos(n);
    power2::lemma_pow2_pos((16 - n) as nat);
    if n > 0 {
        let scaled = scu_hz * 10 / (power2::pow2(n) as int) % 0x1_0000_0000;
        assert(scaled / (freq_hz as int) >= 0) by (nonlinear_arith)
            requires
                scaled >= 0,
                freq_hz > 0,
        ;
    } else {
        lemma_undivided_ticks(freq_hz, scu_hz);
    }
    assert((0x1_0000 - duty) * period >= 0 && (0x1_0000 - duty) * (period + 1) >= 0)
        by (nonlinear_arith)
        requires
            period >= 0,
            duty < 0x1_0000,
    ;
}

/// With an undivided clock, a cycle is the number of ticks nearest to the wanted one, unless it
/// had to be cut.
pub proof fn law_undivided_period_is_nearest(freq_hz: u32, scu_hz: u32)
    requires
        freq_in_range(freq_hz, scu_hz),
        prescale_for(freq_hz, scu_hz) == 0,
        period_for(freq_hz, scu_hz) < 0xffff,
    ensures
        2 * scu_hz - freq_hz < 2 * (period_for(freq_hz, scu_hz) + 1) * freq_hz <= 2 * scu_hz
            + freq_hz,
{
    let f = freq_hz as int;
    let c = scu_hz as int;
    let t = c * 10 / f;
    let p = (t - 5) / 10;
    assert(10 * c - f < t * f <= 10 * c) by (nonlinear_arith)
        requires
            t == c * 10 / f,
            f > 0,
    ;
    assert(2 * c - f < 2 * (p + 1) * f <= 2 * c + f) by (nonlinear_arith)
        requires
            10 * c - f < t * f <= 10 * c,
            10 * p + 5 <= t <= 10 * p + 14,
            f > 0,
    ;
}

/// With a divided clock, a cycle is the number of divided ticks nearest to the wanted one, as long
/// as ten times the divided clock fits 32 bits.
pub proof fn law_divided_period_is_nearest(freq_hz: u32, scu_hz: u32)
    requires
        freq_in_range(freq_hz, scu_hz),
        prescale_for(freq_hz, scu_hz) > 0,
        scu_hz * 10 / (power2::pow2(prescale_for(freq_hz, scu_hz)) as int) <= u32::MAX,
    ensures
        ({
            let cycle = power2::pow2(prescale_for(freq_hz, scu_hz)) * freq_hz;
            2 * scu_hz - cycle < 2 * period_for(freq_hz, scu_hz) * cycle <= 2 * scu_hz + cycle
        }),
{
    law_prescale_is_least(freq_hz, scu_hz);
    let n = prescale_for(freq_hz, scu_hz);
    power2::lemma_pow2_pos(n);
    let f = freq_hz as int;
    let c = scu_hz as int;
    let d = power2::pow2(n) as int;
    let t = c * 10 / d / f;
    vstd::arithmetic::div_mod::lemma_div_denominator(c * 10, d, f);
    let df = d * f;
    assert(df > 0) by (nonlinear_arith)
        requires
            d > 0,
            f > 0,
            df == d * f,
    ;
    assert(10 * c - df < t * df <= 10 * c) by (nonlinear_arith)
        requires
            t == c * 10 / df,
            df > 0,
    ;
    let p = (t + 5) / 10;
    assert(2 * c - df < 2 * p * df <= 2 * c + df) by (nonlinear_arith)
        requires
            10 * c - df < t * df <= 10 * c,
            10 * p - 5 <= t <= 10 * p + 4,
            df > 0,
    ;
}

/// A larger duty never makes the low part of a cycle longer.
pub proof fn law_duty_is_monotone(freq_hz: u32, low: u16, high: u16, scu_hz: u32)
    requires
        low <= high,
        freq_in_range(freq_hz, scu_hz),
    ensures
        off_for(freq_hz, high, scu_hz) <= off_for(freq_hz, low, scu_hz),
{
    let n = prescale_for(freq_hz, scu_hz);
    let period = period_for(freq_hz, scu_hz);
    lemma_timing_nonnegative(freq_hz, scu_hz);
    assert((0x1_0000 - high) * period <= (0x1_0000 - low) * period && (0x1_0000 - high) * (period
        + 1) <= (0x1_0000 - low) * (period + 1)) by (nonlinear_arith)
        requires
            low <= high,
            period >= 0,
    ;
}

/// A period is not negative.
proof fn lemma_timing_nonnegative(freq_hz: u32, scu_hz: u32)
    requires
        freq_in_range(freq_hz, scu_hz),
    ensures
        0 <= period_for(freq_hz, scu_hz) <= 0xffff,
{
    let n = prescale_for(freq_hz, scu_hz);
    if n > 0 {
        let scaled = scu_hz * 10 / (power2::pow2(n) as int) % 0x1_0000_0000;
        assert(scaled / (freq_hz as int) >= 0) by (nonlinear_arith)
            requires
                scaled >= 0,
                freq_hz > 0,
        ;
    } else {
        lemma_undivided_ticks(freq_hz, scu_hz);
    }
}

/// With an undivided clock, the low part of a cycle is the number of ticks nearest to the wanted
/// one, unless it would take the whole cycle.
pub proof fn law_undivided_duty_is_nearest(freq_hz: u32, duty: u16, scu_hz: u32)
    requires
        freq_in_range(freq_hz, scu_hz),
        prescale_for(freq_hz, scu_hz) == 0,
    ensures
        ({
            let wanted = (0x1_0000 - duty) * (period_for(freq_hz, scu_hz) + 1);
            let off = off_for(freq_hz, duty, scu_hz);
            ||| off == period_for(freq_hz, scu_hz) && wanted + 0x8000 >= (off + 1) * 0x1_0000
            ||| wanted - 0x8000 < off * 0x1_0000 <= wanted + 0x8000
        }),
{
}

/// With a divided clock, the low part of a cycle is off by less than one divided tick from the
/// wanted one, unless it would take more than the whole cycle.
pub proof fn law_divided_duty_is_near(freq_hz: u32, duty: u16, scu_hz: u32)
    requires
        freq_in_range(freq_hz, scu_hz),
        prescale_for(freq_hz, scu_hz) > 0,
    ensures
        ({
            let wanted = (0x1_0000 - duty) * period_for(freq_hz, scu_hz);
            let off = off_for(freq_hz, duty, scu_hz);
            ||| off == period_for(freq_hz, scu_hz) && wanted + 0x8000 >= (off + 1) * 0x1_0000
            ||| wanted - 0x1_0000 < off * 0x1_0000 < wanted + 0x1_0000
        }),
{
    law_prescale_is_least(freq_hz, scu_hz);
    let n = prescale_for(freq_hz, scu_hz);
    power2::lemma2_to64();
    power2::lemma_pow2_pos((16 - n) as nat);
    if n > 1 {
        power2::lemma_pow2_strictly_increases((16 - n) as nat, 15);
    }
}

/// The period and the prescaler do not depend on the duty.
pub proof fn law_duty_keeps_frequency(freq_hz: u32, one: u16, other: u16, scu_hz: u32)
    requires
        timing(freq_hz, one, scu_hz) is Ok,
        timing(freq_hz, other, scu_hz) is Ok,
    ensures
        ({
            let (param, phase) = timing(freq_hz, one, scu_hz)->Ok_0;
            let (param2, phase2) = timing(freq_hz, other, scu_hz)->Ok_0;
            param2 % 0x1_0000 == param % 0x1_0000 && phase2 == phase
        }),
{
    law_timing_fields(freq_hz, one, scu_hz);
    law_timing_fields(freq_hz, other, scu_hz);
}

/// A register of a channel.
#[derive(Clone, Copy, Debug, PartialEq, Eq, Structural)]
pub enum RegName {
    Param,
    En,
    Phase,
}

/// A word to be written to a register of channel 0 or 1.
#[derive(Clone, Copy, Debug, PartialEq, Eq, Structural)]
pub struct RegWrite {
    pub channel: u8,
    pub reg: RegName,
    pub value: u32,
}

/// The registers after a write.
pub open spec fn written(words: Words, w: RegWrite) -> Words {
    match (w.channel == 0, w.reg) {
        (true, RegName::Param) => Words { ch0_param: w.value, ..words },
        (true, RegName::En) => Words { ch0_en: w.value, ..words },
        (true, RegName::Phase) => Words { ch0_phase: w.value, ..words },
        (false, RegName::Param) => Words { ch1_param: w.value, ..words },
        (false, RegName::En) => Words { ch1_en: w.value, ..words },
        (false, RegName::Phase) => Words { ch1_phase: w.value, ..words },
    }
}

/// The registers after each of `writes` in turn.
pub open spec fn all_written(words: Words, writes: Seq<RegWrite>) -> Words
    decreases writes.len(),
{
    if writes.len() == 0 {
        words
    } else {
        all_written(written(words, writes[0]), writes.drop_first())
    }
}

impl RegWrite {
    /// Carries the write out on a register block.
    pub fn apply(&self, block: &mut RegisterBlock)
        ensures
            final(block).words() == written(old(block).words(), *self),
    {
        if self.channel == 0 {
            match self.reg {
                RegName::Param => block.ch0_param_mut().value = self.value,
                RegName::En => block.ch0_en_mut().value = self.value,
                RegName::Phase => block.ch0_phase_mut().value = self.value,
            }
        } else {
            match self.reg {
                RegName::Param => block.ch1_param_mut().value = self.value,
                RegName::En => block.ch1_en_mut().value = self.value,
                RegName::Phase => block.ch1_phase_mut().value = self.value,
            }
        }
    }
}

/// One step of bringing the modulator up.
#[derive(Clone, Copy, Debug, PartialEq, Eq, Structural)]
pub enum Setup {
    /// Write a register of the modulator.
    Reg(RegWrite),
    /// Write the pad of an output: its drive strength, its pull resistors, which are off when set,
    /// and its input.
    Pad { channel: u8, lowemi: bool, pdn: bool, pun: bool, enzi: bool },
    /// Select the function of both outputs, and leave the rest of that register.
    Function { pwma: u8 },
}

/// The channel of a type parameter: every one but 0 is channel 1.
pub open spec fn channel_of(ch: u8) -> u8 {
    if ch == 0 {
        0
    } else {
        1
    }
}

/// A write of channel `ch`.
pub open spec fn reg_write(ch: u8, reg: RegName, value: u32) -> RegWrite {
    RegWrite { channel: channel_of(ch), reg, value }
}

/// What brings the modulator up: both channels off, then the pads (full drive, no pull, output
/// only), then their function.
pub open spec fn bring_up() -> Seq<Setup> {
    seq![
        Setup::Reg(reg_write(0, RegName::En, 0)),
        Setup::Reg(reg_write(1, RegName::En, 0)),
        Setup::Pad { channel: 0, lowemi: false, pdn: true, pun: true, enzi: false },
        Setup::Pad { channel: 1, lowemi: false, pdn: true, pun: true, enzi: false },
        Setup::Function { pwma: 1 },
    ]
}

/// The modulator, with both channels off.
pub struct PwmBlock {
    scu_hz: u32,
}

impl PwmBlock {
    /// The rate of the SCU clock.
    pub closed spec fn scu(self) -> u32 {
        self.scu_hz
    }

    /// Takes over the modulator, unless the SCU clock does not run. The steps are to be carried
    /// out in order.
    pub fn new(pwm: pac::Pwm, clocks: &Clocks) -> (r: Result<(PwmBlock, Vec<Setup>), PwmError>)
        ensures
            match r {
                Ok((b, steps)) => clocks.scu.raw != 0 && b.scu() == clocks.scu.raw && steps@
                    == bring_up(),
                Err(e) => clocks.scu.raw == 0 && e == PwmError::ClockUnavailable,
            },
    {
        let scu_hz: u32 = clocks.scu.to_hz();
        if scu_hz == 0 {
            return Err(PwmError::ClockUnavailable);
        }
        let mut steps: Vec<Setup> = Vec::new();
        steps.push(Setup::Reg(RegWrite { channel: 0, reg: RegName::En, value: 0 }));
        steps.push(Setup::Reg(RegWrite { channel: 1, reg: RegName::En, value: 0 }));
        pwm_pinmux(&mut steps);
        assert(steps@ =~= bring_up());
        Ok((PwmBlock { scu_hz }, steps))
    }

    /// Splits the modulator into its channels.
    pub fn split(self) -> (r: (Pwm<0>, Pwm<1>))
        ensures
            r.0.scu() == self.scu(),
            r.1.scu() == self.scu(),
            r.0.freq() == 0,
            r.1.freq() == 0,
    {
        (
            Pwm { scu_hz: self.scu_hz, freq_hz: 0 },
            Pwm { scu_hz: self.scu_hz, freq_hz: 0 },
        )
    }

    /// Gives the modulator up: both channels off.
    pub fn release(self) -> (w: Vec<RegWrite>)
        ensures
            w@ == seq![reg_write(0, RegName::En, 0), reg_write(1, RegName::En, 0)],
    {
        let mut w: Vec<RegWrite> = Vec::new();
        w.push(RegWrite { channel: 0, reg: RegName::En, value: 0 });
        w.push(RegWrite { channel: 1, reg: RegName::En, value: 0 });
        assert(w@ =~= seq![reg_write(0, RegName::En, 0), reg_write(1, RegName::En, 0)]);
        w
    }
}

fn pwm_pinmux(steps: &mut Vec<Setup>)
    ensures
        final(steps)@ == old(steps)@ + seq![
            Setup::Pad { channel: 0, lowemi: false, pdn: true, pun: true, enzi: false },
            Setup::Pad { channel: 1, lowemi: false, pdn: true, pun: true, enzi: false },
            Setup::Function { pwma: 1 },
        ],
{
    steps.push(Setup::Pad { channel: 0, lowemi: false, pdn: true, pun: true, enzi: false });
    steps.push(Setup::Pad { channel: 1, lowemi: false, pdn: true, pun: true, enzi: false });
    steps.push(Setup::Function { pwma: 1 });
    assert(steps@ =~= old(steps)@ + seq![
        Setup::Pad { channel: 0, lowemi: false, pdn: true, pun: true, enzi: false },
        Setup::Pad { channel: 1, lowemi: false, pdn: true, pun: true, enzi: false },
        Setup::Function { pwma: 1 },
    ]);
}

/// What configuring channel `ch` writes, given what its EN register holds: nothing but EN for a
/// constant low, PARAM and EN for a constant high, PARAM alone if the channel runs, and the whole
/// setup, ending with EN, if it does not.
pub open spec fn configuration(ch: u8, scu_hz: u32, en: u32, freq_hz: u32, duty: u16) -> Result<
    Seq<RegWrite>,
    PwmError,
> {
    if duty == 0 {
        Ok(seq![reg_write(ch, RegName::En, 0)])
    } else if duty == 0xffff {
        Ok(seq![reg_write(ch, RegName::Param, 1), reg_write(ch, RegName::En, 1)])
    } else {
        match timing(freq_hz, duty, scu_hz) {
            Err(e) => Err(e),
            Ok((param, phase)) => if en % 2 == 1 {
                Ok(seq![reg_write(ch, RegName::Param, param)])
            } else {
                Ok(
                    seq![
                        reg_write(ch, RegName::En, 0),
                        reg_write(ch, RegName::Param, param),
                        reg_write(ch, RegName::Phase, phase),
                        reg_write(ch, RegName::En, 1),
                    ],
                )
            },
        }
    }
}

/// One channel of the modulator: `CH` is 0 or 1.
pub struct Pwm<const CH: u8> {
    scu_hz: u32,
    /// The frequency of the last configuration that succeeded, or 0.
    freq_hz: u32,
}

impl<const CH: u8> Pwm<CH> {
    /// The rate of the SCU clock.
    pub closed spec fn scu(self) -> u32 {
        self.scu_hz
    }

    /// The frequency of the last configuration that succeeded, or 0.
    pub closed spec fn freq(self) -> u32 {
        self.freq_hz
    }

    fn write(reg: RegName, value: u32) -> (w: RegWrite)
        ensures
            w == reg_write(CH, reg, value),
    {
        let channel: u8 = if CH == 0 {
            0
        } else {
            1
        };
        RegWrite { channel, reg, value }
    }

    /// Configures the channel and starts it. `en` is what its EN register holds. The writes are to
    /// be carried out in order.
    ///
    /// The frequency is kept for [`Pwm::set_duty`]. A channel that runs only gets a new PARAM, so
    /// its prescaler stays.
    pub fn configure(&mut self, en: u32, freq_hz: u32, duty: u16) -> (r: Result<
        Vec<RegWrite>,
        PwmError,
    >)
        requires
            duty != 0 && duty != 0xffff ==> computable(freq_hz, old(self).scu()),
        ensures
            final(self).scu() == old(self).scu(),
            match (configuration(CH, old(self).scu(), en, freq_hz, duty), r) {
                (Ok(s), Ok(w)) => w@ == s && final(self).freq() == freq_hz,
                (Err(e), Err(f)) => f == e && *final(self) == *old(self),
                _ => false,
            },
    {
        let mut w: Vec<RegWrite> = Vec::new();
        if duty == 0 {
            w.push(Self::write(RegName::En, 0));
            self.freq_hz = freq_hz;
            assert(w@ =~= seq![reg_write(CH, RegName::En, 0)]);
            return Ok(w);
        }
        if duty == 0xffff {
            w.push(Self::write(RegName::Param, 1));
            w.push(Self::write(RegName::En, 1));
            self.freq_hz = freq_hz;
            assert(w@ =~= seq![reg_write(CH, RegName::Param, 1), reg_write(CH, RegName::En, 1)]);
            return Ok(w);
        }
        let (param, phase) = match compute_param_phase(freq_hz, duty, self.scu_hz) {
            Ok(p) => p,
            Err(e) => {
                return Err(e);
            },
        };
        if self.is_running(en) {
            w.push(Self::write(RegName::Param, param));
            assert(w@ =~= seq![reg_write(CH, RegName::Param, param)]);
        } else {
            w.push(Self::write(RegName::En, 0));
            w.push(Self::write(RegName::Param, param));
            w.push(Self::write(RegName::Phase, phase));
            w.push(Self::write(RegName::En, 1));
            assert(w@ =~= seq![
                reg_write(CH, RegName::En, 0),
                reg_write(CH, RegName::Param, param),
                reg_write(CH, RegName::Phase, phase),
                reg_write(CH, RegName::En, 1),
            ]);
        }
        self.freq_hz = freq_hz;
        Ok(w)
    }

    /// Changes the duty at the frequency of the last configuration. Without one it fails.
    pub fn set_duty(&mut self, en: u32, duty: u16) -> (r: Result<Vec<RegWrite>, PwmError>)
        requires
            duty != 0 && duty != 0xffff ==> computable(old(self).freq(), old(self).scu()),
        ensures
            final(self).scu() == old(self).scu(),
            final(self).freq() == old(self).freq(),
            if old(self).freq() == 0 {
                r == Err::<Vec<RegWrite>, PwmError>(PwmError::FreqOutOfRange)
            } else {
                match (configuration(CH, old(self).scu(), en, old(self).freq(), duty), r) {
                    (Ok(s), Ok(w)) => w@ == s,
                    (Err(e), Err(f)) => f == e,
                    _ => false,
                }
            },
    {
        let freq_hz: u32 = self.freq_hz;
        if freq_hz == 0 {
            return Err(PwmError::FreqOutOfRange);
        }
        self.configure(en, freq_hz, duty)
    }

    /// The largest duty.
    pub fn max_duty_cycle(&self) -> (d: u16)
        ensures
            d == 0xffff,
    {
        0xffff
    }

    /// Sets the duty as a fraction of [`Pwm::max_duty_cycle`]. The two extremes need no frequency;
    /// any other duty fails without an earlier configuration.
    pub fn set_duty_cycle(&mut self, en: u32, duty: u16) -> (r: Result<Vec<RegWrite>, PwmError>)
        requires
            duty != 0 && duty != 0xffff ==> computable(old(self).freq(), old(self).scu()),
        ensures
            final(self).scu() == old(self).scu(),
            final(self).freq() == old(self).freq(),
            if old(self).freq() == 0 && duty != 0 && duty != 0xffff {
                r == Err::<Vec<RegWrite>, PwmError>(PwmError::FreqOutOfRange)
            } else {
                match (configuration(CH, old(self).scu(), en, old(self).freq(), duty), r) {
                    (Ok(s), Ok(w)) => w@ == s,
                    (Err(e), Err(f)) => f == e,
                    _ => false,
                }
            },
    {
        if duty == 0 || duty == 0xffff {
            let freq_hz: u32 = self.freq_hz;
            return self.configure(en, freq_hz, duty);
        }
        self.set_duty(en, duty)
    }

    /// Stops the channel: its output goes low.
    pub fn stop(&mut self) -> (w: RegWrite)
        ensures
            w == reg_write(CH, RegName::En, 0),
            *final(self) == *old(self),
    {
        Self::write(RegName::En, 0)
    }

    /// Whether the channel runs, given what its EN register holds.
    pub fn is_running(&self, en: u32) -> (r: bool)
        ensures
            r == (en % 2 == 1),
    {
        proof {
            pac::generic::lemma_fields(en);
        }
        en & 1 != 0
    }

    /// The rate of the SCU clock.
    pub fn scu_hz(&self) -> (r: u32)
        ensures
            r == self.scu(),
    {
        self.scu_hz
    }

    /// Gives the channel up: its output goes low.
    pub fn release(self) -> (w: RegWrite)
        ensures
            w == reg_write(CH, RegName::En, 0),
    {
        Self::write(RegName::En, 0)
    }
}

/// The EN register of a channel.
pub open spec fn en_of(words: Words, ch: u8) -> u32 {
    if ch == 0 {
        words.ch0_en
    } else {
        words.ch1_en
    }
}

/// The PARAM register of a channel.
pub open spec fn param_of(words: Words, ch: u8) -> u32 {
    if ch == 0 {
        words.ch0_param
    } else {
        words.ch1_param
    }
}

/// The PHASE register of a channel.
pub open spec fn phase_of(words: Words, ch: u8) -> u32 {
    if ch == 0 {
        words.ch0_phase
    } else {
        words.ch1_phase
    }
}

/// Whether the registers of the channel other than `ch`, and both update registers, are the same.
pub open spec fn same_beside(a: Words, b: Words, ch: u8) -> bool {
    &&& en_of(a, (1 - channel_of(ch)) as u8) == en_of(b, (1 - channel_of(ch)) as u8)
    &&& param_of(a, (1 - channel_of(ch)) as u8) == param_of(b, (1 - channel_of(ch)) as u8)
    &&& phase_of(a, (1 - channel_of(ch)) as u8) == phase_of(b, (1 - channel_of(ch)) as u8)
    &&& a.ch0_update == b.ch0_update
    &&& a.ch1_update == b.ch1_update
}

/// What a configuration does to the registers: a duty of 0 leaves the channel off, any other one
/// leaves it on with the PARAM that its frequency and duty call for. A channel that was off also
/// gets the prescaler; one that ran keeps EN and PHASE. The other channel is not touched.
pub proof fn law_configure_effect(words: Words, ch: u8, scu_hz: u32, freq_hz: u32, duty: u16)
    requires
        configuration(ch, scu_hz, en_of(words, ch), freq_hz, duty) is Ok,
    ensures
        ({
            let after = all_written(
                words,
                configuration(ch, scu_hz, en_of(words, ch), freq_hz, duty)->Ok_0,
            );
            &&& same_beside(words, after, ch)
            &&& if duty == 0 {
                en_of(after, ch) == 0
            } else if duty == 0xffff {
                en_of(after, ch) == 1 && param_of(after, ch) == 1
            } else {
                let (param, phase) = timing(freq_hz, duty, scu_hz)->Ok_0;
                &&& en_of(after, ch) % 2 == 1
                &&& param_of(after, ch) == param
                &&& if en_of(words, ch) % 2 == 1 {
                    en_of(after, ch) == en_of(words, ch) && phase_of(after, ch) == phase_of(
                        words,
                        ch,
                    )
                } else {
                    phase_of(after, ch) == phase
                }
            }
        }),
{
    let writes = configuration(ch, scu_hz, en_of(words, ch), freq_hz, duty)->Ok_0;
    reveal_with_fuel(all_written, 5);
    assert(writes.len() == 1 || writes.len() == 2 || writes.len() == 4);
    if writes.len() >= 2 {
        assert(writes.drop_first()[0] == writes[1]);
        assert(writes.drop_first().drop_first().len() == writes.len() - 2);
    }
    if writes.len() == 4 {
        assert(writes.drop_first().drop_first()[0] == writes[2]);
        assert(writes.drop_first().drop_first().drop_first()[0] == writes[3]);
    }
}

/// A channel that was off, is configured, and then gets another duty at the same frequency, runs
/// with the period and the prescaler of that frequency and the low part of the second duty.
pub proof fn law_duty_update(words: Words, ch: u8, scu_hz: u32, freq_hz: u32, one: u16, other: u16)
    requires
        en_of(words, ch) % 2 == 0,
        one != 0 && one != 0xffff,
        other != 0 && other != 0xffff,
        timing(freq_hz, one, scu_hz) is Ok,
        timing(freq_hz, other, scu_hz) is Ok,
    ensures
        ({
            let first = all_written(
                words,
                configuration(ch, scu_hz, en_of(words, ch), freq_hz, one)->Ok_0,
            );
            let second = all_written(
                first,
                configuration(ch, scu_hz, en_of(first, ch), freq_hz, other)->Ok_0,
            );
            &&& en_of(second, ch) % 2 == 1
            &&& param_of(second, ch) % 0x1_0000 == period_for(freq_hz, scu_hz)
            &&& param_of(second, ch) / 0x1_0000 == off_for(freq_hz, other, scu_hz)
            &&& phase_of(second, ch) / 0x1_0000 == prescale_for(freq_hz, scu_hz)
            &&& same_beside(words, second, ch)
        }),
{
    law_configure_effect(words, ch, scu_hz, freq_hz, one);
    let first = all_written(
        words,
        configuration(ch, scu_hz, en_of(words, ch), freq_hz, one)->Ok_0,
    );
    law_configure_effect(first, ch, scu_hz, freq_hz, other);
    law_timing_fields(freq_hz, one, scu_hz);
    law_timing_fields(freq_hz, other, scu_hz);
}

/// The ticks of a cycle before they are cut, with an undivided clock, are the nearest to the wanted
/// ones.
proof fn lemma_uncut_is_nearest(freq_hz: u32, scu_hz: u32)
    requires
        freq_in_range(freq_hz, scu_hz),
    ensures
        ({
            let p = (scu_hz * 10 / (freq_hz as int) - 5) / 10;
            2 * scu_hz - freq_hz < 2 * (p + 1) * freq_hz <= 2 * scu_hz + freq_hz
        }),
{
    let f = freq_hz as int;
    let c = scu_hz as int;
    let t = c * 10 / f;
    let p = (t - 5) / 10;
    assert(10 * c - f < t * f <= 10 * c) by (nonlinear_arith)
        requires
            t == c * 10 / f,
            f > 0,
    ;
    assert(2 * c - f < 2 * (p + 1) * f <= 2 * c + f) by (nonlinear_arith)
        requires
            10 * c - f < t * f <= 10 * c,
            10 * p + 5 <= t <= 10 * p + 14,
            f > 0,
    ;
}

/// A cycle fits with the clock divided by 256 exactly if it takes fewer than 65535 such ticks.
proof fn lemma_largest_divisor(freq_hz: u32, scu_hz: u32)
    ensures
        fits(freq_hz, scu_hz, 8) <==> scu_hz < 16_776_960 * freq_hz,
{
    power2::lemma2_to64();
}

/// The frequency that was asked for is made, whatever the duty. Of the registers, `n` is the
/// prescaler, the clock is divided by 2 to the `n`, and a cycle takes `ticks` of what is left: the
/// period, or one more if the clock is not divided. As long as a cycle fits the 16-bit counter with
/// some prescaler up to 8, the ticks are those nearest to the wanted frequency. In a narrow margin,
/// where an undivided cycle just does not fit, it is cut by less than 256 clocks of the SCU.
///
/// The clock is one that fits 32 bits tenfold.
pub proof fn law_frequency_is_made(freq_hz: u32, duty: u16, scu_hz: u32)
    requires
        timing(freq_hz, duty, scu_hz) is Ok,
        scu_hz * 10 <= u32::MAX,
        scu_hz < 16_776_960 * freq_hz,
    ensures
        ({
            let (param, phase) = timing(freq_hz, duty, scu_hz)->Ok_0;
            let n = phase as nat / 65_536;
            let unit = power2::pow2(n) * freq_hz;
            let ticks = if n == 0 {
                param as int % 65_536 + 1
            } else {
                param as int % 65_536
            };
            &&& n <= 8
            &&& phase as int % 65_536 == 0
            &&& {
                ||| 2 * scu_hz - unit < 2 * ticks * unit <= 2 * scu_hz + unit
                ||| n == 0 && ticks == 65_536 && 65_536 * freq_hz < scu_hz < 65_536 * freq_hz + 256
            }
        }),
{
    law_timing_fields(freq_hz, duty, scu_hz);
    let n = prescale_for(freq_hz, scu_hz);
    let phase = timing(freq_hz, duty, scu_hz)->Ok_0.1;
    assert(phase as nat / 65_536 == n);
    power2::lemma2_to64();
    if n > 0 {
        power2::lemma_pow2_pos(n);
        let d = power2::pow2(n) as int;
        assert(scu_hz * 10 / d <= scu_hz * 10) by (nonlinear_arith)
            requires
                d > 0,
        ;
        law_divided_period_is_nearest(freq_hz, scu_hz);
    } else {
        lemma_first_fit(freq_hz, scu_hz, 1);
        lemma_largest_divisor(freq_hz, scu_hz);
        lemma_uncut_is_nearest(freq_hz, scu_hz);
        let d = power2::pow2(n) as int;
        let unit = power2::pow2(n) * freq_hz;
        assert(d == 1);
        assert(unit == freq_hz) by (nonlinear_arith)
            requires
                unit == d * freq_hz,
                d == 1,
        ;
        let p = (scu_hz * 10 / (freq_hz as int) - 5) / 10;
        let param = timing(freq_hz, duty, scu_hz)->Ok_0.0;
        let ticks = param as int % 65_536 + 1;
        assert(freq_hz * 256 % 0x1_0000_0000 >= scu_hz / 256);
        assert(scu_hz < 65_536 * freq_hz + 256);
        if p <= 0xffff {
            assert(ticks == p + 1);
            assert(2 * ticks * unit == 2 * (p + 1) * freq_hz);
        }
        if p > 0xffff {
            assert(65_536 * freq_hz < scu_hz) by (nonlinear_arith)
                requires
                    p + 1 >= 65_537,
                    2 * (p + 1) * freq_hz <= 2 * scu_hz + freq_hz,
                    freq_hz > 0,
            ;
        }
    }
}

/// The clock is not divided further than it has to be: where it is divided at all the undivided
/// cycle does not fit, and where it is divided by more than 2 half the divisor would not do. A
/// frequency past 24 bits is the exception: it may find its clock divided by 2.
pub proof fn law_prescaler_is_needed(freq_hz: u32, duty: u16, scu_hz: u32)
    requires
        timing(freq_hz, duty, scu_hz) is Ok,
    ensures
        ({
            let n = timing(freq_hz, duty, scu_hz)->Ok_0.1 as nat / 65_536;
            &&& n > 0 && freq_hz < 16_777_216 ==> 65_536 * freq_hz < scu_hz
            &&& n > 1 ==> power2::pow2((n - 1) as nat) * 65_535 * freq_hz <= scu_hz
        }),
{
    law_timing_fields(freq_hz, duty, scu_hz);
    lemma_first_fit(freq_hz, scu_hz, 1);
    let n = prescale_for(freq_hz, scu_hz);
    assert(timing(freq_hz, duty, scu_hz)->Ok_0.1 as nat / 65_536 == n);
    if n > 1 {
        let k = (n - 1) as nat;
        assert(!fits(freq_hz, scu_hz, k));
        power2::lemma_pow2_pos(k);
        let d = power2::pow2(k) as int;
        let q = scu_hz as int / d;
        assert(freq_hz * 65_535 <= q);
        assert(d * q <= scu_hz) by (nonlinear_arith)
            requires
                q == scu_hz as int / d,
                d > 0,
        ;
        assert(d * 65_535 * freq_hz <= d * q) by (nonlinear_arith)
            requires
                freq_hz * 65_535 <= q,
                d > 0,
        ;
    }
}

/// A cycle that is too long for every prescaler gets the longest that an undivided clock can make.
pub proof fn law_slowest_cycle(freq_hz: u32, duty: u16, scu_hz: u32)
    requires
        timing(freq_hz, duty, scu_hz) is Ok,
        scu_hz >= 16_776_960 * freq_hz,
    ensures
        timing(freq_hz, duty, scu_hz)->Ok_0.1 == 0,
        timing(freq_hz, duty, scu_hz)->Ok_0.0 as int % 65_536 == 65_535,
{
    law_timing_fields(freq_hz, duty, scu_hz);
    lemma_first_fit(freq_hz, scu_hz, 1);
    lemma_largest_divisor(freq_hz, scu_hz);
    let m = first_fit(freq_hz, scu_hz, 1);
    if m > 0 {
        power2::lemma_pow2_pos(m);
        power2::lemma2_to64();
        if m < 8 {
            power2::lemma_pow2_strictly_increases(m, 8);
        }
        let d = power2::pow2(m) as int;
        let (q, s) = (scu_hz as int / d, scu_hz as int / 256);
        assert(s <= q) by (nonlinear_arith)
            requires
                q == scu_hz as int / d,
                s == scu_hz as int / 256,
                0 < d <= 256,
                scu_hz >= 0,
        ;
        assert(!fits(freq_hz, scu_hz, 8));
    }
    lemma_uncut_is_nearest(freq_hz, scu_hz);
    let p = (scu_hz * 10 / (freq_hz as int) - 5) / 10;
    assert(p > 0xffff) by (nonlinear_arith)
        requires
            2 * scu_hz - freq_hz < 2 * (p + 1) * freq_hz,
            scu_hz >= 16_776_960 * freq_hz,
            freq_hz > 0,
    ;
}

/// The duty that was asked for is made: of the registers, the output is low for the upper half of
/// PARAM out of a cycle. That is the number of ticks nearest to the wanted one with an undivided
/// clock; with one divided by 2 to the `n` it is rounded up from `1 - 2^-n` of a tick on. It never
/// exceeds the period.
pub proof fn law_duty_is_made(freq_hz: u32, duty: u16, scu_hz: u32)
    requires
        timing(freq_hz, duty, scu_hz) is Ok,
    ensures
        ({
            let (param, phase) = timing(freq_hz, duty, scu_hz)->Ok_0;
            let period = param as int % 65_536;
            let low = param as int / 65_536;
            &&& low <= period
            &&& phase == 0 ==> {
                let wanted = (65_536 - duty) * (period + 1);
                ||| low == period && wanted + 32_768 >= (low + 1) * 65_536
                ||| wanted - 32_768 < low * 65_536 <= wanted + 32_768
            }
            &&& phase != 0 ==> {
                let wanted = (65_536 - duty) * period;
                let up = power2::pow2((16 - phase as int / 65_536) as nat);
                ||| low == period && wanted + up >= (low + 1) * 65_536
                ||| wanted + up - 65_536 < low * 65_536 <= wanted + up
            }
        }),
{
    law_timing_fields(freq_hz, duty, scu_hz);
    if prescale_for(freq_hz, scu_hz) == 0 {
        law_undivided_duty_is_nearest(freq_hz, duty, scu_hz);
    } else {
        law_divided_duty_is_near(freq_hz, duty, scu_hz);
    }
}

/// When a frequency and a duty are refused: the frequency exactly if it is 0 or more than half the
/// clock, rounded up, whatever the duty; and a duty only with a divided clock, exactly as its low
/// part falls short of two ticks. `one` stands for any duty that is taken at this frequency, and
/// gives the period.
pub proof fn law_refusals(freq_hz: u32, one: u16, other: u16, scu_hz: u32)
    ensures
        timing(freq_hz, other, scu_hz) == Err::<(u32, u32), PwmError>(PwmError::FreqOutOfRange)
            <==> freq_hz == 0 || 2 * freq_hz > scu_hz + 1,
        timing(freq_hz, other, scu_hz) != Err::<(u32, u32), PwmError>(PwmError::ClockUnavailable),
        timing(freq_hz, one, scu_hz) matches Ok((param, phase)) ==> {
            let period = param as int % 65_536;
            &&& phase == 0 ==> timing(freq_hz, other, scu_hz) is Ok
            &&& (65_536 - other) * period >= 131_072 ==> timing(freq_hz, other, scu_hz) is Ok
            &&& phase != 0 && (65_536 - other) * period + 32_768 < 131_072 ==> timing(
                freq_hz,
                other,
                scu_hz,
            ) == Err::<(u32, u32), PwmError>(PwmError::DutyOutOfRange)
        },
{
    if let Ok((param, phase)) = timing(freq_hz, one, scu_hz) {
        law_timing_fields(freq_hz, one, scu_hz);
        lemma_first_fit(freq_hz, scu_hz, 1);
        let n = prescale_for(freq_hz, scu_hz);
        power2::lemma2_to64();
        power2::lemma_pow2_pos((16 - n) as nat);
        if n > 1 {
            power2::lemma_pow2_strictly_increases((16 - n) as nat, 15);
        }
    }
}

/// Stopping a channel, or giving it up, clears its EN register and touches no other, of this
/// channel or of the other one.
pub proof fn law_stop_clears_enable(words: Words, ch: u8)
    ensures
        ({
            let after = written(words, reg_write(ch, RegName::En, 0));
            &&& en_of(after, ch) == 0
            &&& param_of(after, ch) == param_of(words, ch)
            &&& phase_of(after, ch) == phase_of(words, ch)
            &&& same_beside(words, after, ch)
            &&& ch == 0 ==> after == (Words { ch0_en: 0, ..words })
            &&& ch == 1 ==> after == (Words { ch1_en: 0, ..words })
        }),
{
}

/// Bringing the modulator up starts with both channels off, sets the pad of each of the two outputs
/// once, for output only and without a pull, and ends with their function.
pub proof fn law_bring_up_is_quiet(i: int)
    requires
        0 <= i < 5,
    ensures
        bring_up().len() == 5,
        match bring_up()[i] {
            Setup::Reg(w) => i < 2 && w.channel == i && w.reg == RegName::En && w.value == 0,
            Setup::Pad { channel, lowemi, pdn, pun, enzi } => 2 <= i < 4 && channel == i - 2
                && !lowemi && pdn && pun && !enzi,
            Setup::Function { pwma } => i == 4 && pwma == 1,
        },
{
}

} // verus!
