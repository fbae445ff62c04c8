use cxd56::clocks::Clocks;
use cxd56::pac;
use cxd56::pac::pwm::{RegisterBlock, Words};
use cxd56::pwm::{
    compute_param_phase, is_computable, Pwm, PwmBlock, PwmError, RegName, RegWrite, Setup,
};
use cxd56::units::Hertz;

const SCU_HZ: u32 = 32_000_000;

fn clocks(scu: u32) -> Clocks {
    let zero = Hertz::from_hz(0);
    Clocks {
        xosc: zero,
        rcosc: zero,
        rtc: zero,
        scu: Hertz::from_hz(scu),
        hpadc: zero,
        lpadc: zero,
        syspll: zero,
        sys: zero,
        sys_ahb: zero,
        sys_apb: zero,
        sys_sfc: zero,
        com: zero,
        pmui2c: zero,
        gps_cpu: zero,
        gps_ahb: zero,
        appsmp: zero,
        usb: zero,
        sdio: zero,
        img_uart: zero,
        img_spi: zero,
        img_wspi: zero,
        img_vsync: zero,
    }
}

fn blank() -> RegisterBlock {
    RegisterBlock::new(Words {
        ch0_param: 0,
        ch0_en: 0,
        ch0_update: 0,
        ch1_param: 0,
        ch1_en: 0,
        ch1_update: 0,
        ch0_phase: 0,
        ch1_phase: 0,
    })
}

/// A modulator whose registers are real and whose output is computed from them.
struct Bench {
    regs: RegisterBlock,
    pwm: Pwm<0>,
    other: Pwm<1>,
    writes: Vec<RegWrite>,
}

impl Bench {
    fn new() -> Bench {
        let (block, setup) = PwmBlock::new(pac::Pwm {}, &clocks(SCU_HZ)).expect("scu runs");
        let mut regs = blank();
        for step in setup {
            if let Setup::Reg(w) = step {
                w.apply(&mut regs);
            }
        }
        let (pwm, other) = block.split();
        Bench { regs, pwm, other, writes: Vec::new() }
    }

    fn en(&self) -> u32 {
        self.regs.ch0_en().read().bits()
    }

    fn carry_out(&mut self, writes: Vec<RegWrite>) {
        for w in &writes {
            w.apply(&mut self.regs);
        }
        self.writes = writes;
    }

    fn configure(&mut self, freq: u32, duty: u16) -> Result<(), PwmError> {
        assert!(is_computable(freq, self.pwm.scu_hz()));
        let en = self.en();
        let writes = self.pwm.configure(en, freq, duty)?;
        self.carry_out(writes);
        Ok(())
    }

    fn set_duty(&mut self, duty: u16) -> Result<(), PwmError> {
        let en = self.en();
        let writes = self.pwm.set_duty(en, duty)?;
        self.carry_out(writes);
        Ok(())
    }

    fn stop(&mut self) {
        let w = self.pwm.stop();
        w.apply(&mut self.regs);
    }

    /// Ticks of the undivided clock in a cycle, and those for which the output is high.
    fn cycle(&self) -> (u64, u64) {
        let param = self.regs.ch0_param().read();
        let prescale = self.regs.ch0_phase().read().prescale().bits();
        let period = param.period().bits() as u64 + if prescale == 0 { 1 } else { 0 };
        let low = param.offperiod().bits() as u64;
        (period << prescale, (period - low) << prescale)
    }

    fn is_low(&self) -> bool {
        !self.regs.ch0_en().read().enable().bit()
    }

    fn is_high(&self) -> bool {
        let (total, high) = self.cycle();
        self.regs.ch0_en().read().enable().bit() && total == high
    }

    /// The period in microseconds and the duty in percent.
    fn measure(&self) -> (u32, u32) {
        let (total, high) = self.cycle();
        let period_us = (total * 1_000_000 / SCU_HZ as u64) as u32;
        let duty_pct = (high * 100 / total) as u32;
        (period_us, duty_pct)
    }
}

#[test]
fn const_low() {
    let mut s = Bench::new();
    s.configure(1_000, 0).unwrap();
    assert!(s.is_low(), "duty=0 should hold output LOW");
}

#[test]
fn const_high() {
    let mut s = Bench::new();
    s.configure(1_000, 0xffff).unwrap();
    assert!(s.is_high(), "duty=0xFFFF should hold output HIGH");
}

#[test]
fn freq_1khz_50pct() {
    let mut s = Bench::new();
    s.configure(1_000, 0x8000).unwrap();
    let (period_us, duty_pct) = s.measure();
    let period_err = (period_us as i32 - 1_000).unsigned_abs();
    let duty_err = (duty_pct as i32 - 50).unsigned_abs();
    assert!(period_err <= 80, "1kHz period {}us outside 8% tolerance", period_us);
    assert!(duty_err <= 6, "50% duty {}% outside 6pp tolerance", duty_pct);
}

#[test]
fn freq_1khz_25pct() {
    let mut s = Bench::new();
    s.configure(1_000, 0x4000).unwrap();
    let (period_us, duty_pct) = s.measure();
    let period_err = (period_us as i32 - 1_000).unsigned_abs();
    let duty_err = (duty_pct as i32 - 25).unsigned_abs();
    assert!(period_err <= 80, "1kHz period {}us outside 8% tolerance", period_us);
    assert!(duty_err <= 6, "25% duty {}% outside 6pp tolerance", duty_pct);
}

#[test]
fn dynamic_duty_update() {
    let mut s = Bench::new();
    s.configure(1_000, 0x8000).unwrap();
    let before = s.measure();
    s.set_duty(0x4000).unwrap();
    assert_eq!(s.writes.len(), 1);
    assert_eq!(s.writes[0].reg, RegName::Param);
    let (period_us, duty_pct) = s.measure();
    let period_err = (period_us as i32 - 1_000).unsigned_abs();
    let duty_err = (duty_pct as i32 - 25).unsigned_abs();
    assert!(period_err <= 80, "freq changed during duty update: {}us", period_us);
    assert!(duty_err <= 6, "duty after update {}% not about 25%", duty_pct);
    assert_eq!(before.0, period_us);
}

#[test]
fn stop_goes_low() {
    let mut s = Bench::new();
    s.configure(1_000, 0x8000).unwrap();
    assert!(s.pwm.is_running(s.en()));
    s.stop();
    assert!(s.is_low(), "stop() should drive output LOW");
    assert!(!s.pwm.is_running(s.en()));
}

#[test]
fn exact_registers() {
    // 32 MHz / 1 kHz = 32000 ticks, half of them low.
    assert_eq!(compute_param_phase(1_000, 0x8000, SCU_HZ), Ok(((16_000 << 16) | 31_999, 0)));
    // 32 MHz / 100 Hz = 320000 ticks, which fit 16 bits after a division by 8.
    assert_eq!(compute_param_phase(100, 0x8000, SCU_HZ), Ok(((20_000 << 16) | 40_000, 3 << 16)));
    // A quarter of the cycle low.
    assert_eq!(compute_param_phase(1_000, 0xc000, SCU_HZ), Ok(((8_000 << 16) | 31_999, 0)));
}

#[test]
fn frequency_limits() {
    assert_eq!(compute_param_phase(0, 0x8000, SCU_HZ), Err(PwmError::FreqOutOfRange));
    assert_eq!(compute_param_phase(16_000_001, 0x8000, SCU_HZ), Err(PwmError::FreqOutOfRange));
    assert_eq!(compute_param_phase(16_000_000, 0x8000, SCU_HZ), Ok(((1 << 16) | 1, 0)));
    // An odd clock rounds the limit up.
    assert!(compute_param_phase(3, 0x8000, 5).is_ok());
    assert_eq!(compute_param_phase(4, 0x8000, 5), Err(PwmError::FreqOutOfRange));
}

#[test]
fn duty_too_short_for_divided_clock() {
    assert_eq!(compute_param_phase(100, 0xfffe, SCU_HZ), Err(PwmError::DutyOutOfRange));
    assert!(compute_param_phase(100, 0xfff0, SCU_HZ).is_ok());
}

#[test]
fn wide_clock_is_not_computable() {
    assert!(is_computable(1_000, 429_496_729));
    assert!(!is_computable(100_000, 429_496_730));
    assert!(is_computable(0, u32::MAX));
}

#[test]
fn prescaler_is_least_that_fits() {
    for freq in 1..400u32 {
        if let Ok((param, phase)) = compute_param_phase(freq, 0x8000, SCU_HZ) {
            let n = phase >> 16;
            let period = param & 0xffff;
            assert!(n <= 8);
            assert!(param >> 16 <= period);
            if n > 1 {
                assert!(freq <= (SCU_HZ >> (n - 1)) / 65_535);
            }
        }
    }
}

#[test]
fn larger_duty_is_never_lower() {
    let mut last = u32::MAX;
    for duty in (1..0xfff0u16).step_by(97) {
        let (param, _) = compute_param_phase(1_000, duty, SCU_HZ).unwrap();
        assert!(param >> 16 <= last);
        last = param >> 16;
    }
}

#[test]
fn period_is_nearest() {
    for freq in [700u32, 999, 12_345, 77_777, 1_000_003] {
        let (param, _) = compute_param_phase(freq, 0x8000, SCU_HZ).unwrap();
        let ticks = (param & 0xffff) as i64 + 1;
        let error = (2 * ticks * freq as i64 - 2 * SCU_HZ as i64).abs();
        assert!(error <= freq as i64);
    }
}

#[test]
fn clock_has_to_run() {
    assert!(matches!(
        PwmBlock::new(pac::Pwm {}, &clocks(0)),
        Err(PwmError::ClockUnavailable)
    ));
}

#[test]
fn bring_up_order() {
    let (block, setup) = PwmBlock::new(pac::Pwm {}, &clocks(SCU_HZ)).unwrap();
    assert_eq!(
        setup,
        vec![
            Setup::Reg(RegWrite { channel: 0, reg: RegName::En, value: 0 }),
            Setup::Reg(RegWrite { channel: 1, reg: RegName::En, value: 0 }),
            Setup::Pad { channel: 0, lowemi: false, pdn: true, pun: true, enzi: false },
            Setup::Pad { channel: 1, lowemi: false, pdn: true, pun: true, enzi: false },
            Setup::Function { pwma: 1 },
        ]
    );
    assert_eq!(
        block.release(),
        vec![
            RegWrite { channel: 0, reg: RegName::En, value: 0 },
            RegWrite { channel: 1, reg: RegName::En, value: 0 },
        ]
    );
}

#[test]
fn channels_are_independent() {
    let mut s = Bench::new();
    s.configure(1_000, 0x8000).unwrap();
    let param0 = s.regs.ch0_param().read().bits();
    let writes = s.other.configure(0, 2_000, 0x4000).unwrap();
    assert_eq!(writes.len(), 4);
    for w in &writes {
        w.apply(&mut s.regs);
    }
    assert_eq!(s.regs.ch0_param().read().bits(), param0);
    assert!(s.regs.ch1_en().read().enable().bit());
    assert_eq!(s.regs.ch1_param().read().period().bits(), 15_999);
    assert_eq!(s.regs.ch1_param().read().offperiod().bits(), 12_000);
    let w = s.other.release();
    w.apply(&mut s.regs);
    assert!(!s.regs.ch1_en().read().enable().bit());
    assert!(s.regs.ch0_en().read().enable().bit());
}

#[test]
fn duty_needs_a_frequency() {
    let mut s = Bench::new();
    assert_eq!(s.pwm.set_duty(0, 0x8000), Err(PwmError::FreqOutOfRange));
    assert_eq!(s.pwm.set_duty(0, 0), Err(PwmError::FreqOutOfRange));
    assert_eq!(s.pwm.set_duty_cycle(0, 0x8000), Err(PwmError::FreqOutOfRange));
    // The constant levels need none.
    assert_eq!(
        s.pwm.set_duty_cycle(0, 0),
        Ok(vec![RegWrite { channel: 0, reg: RegName::En, value: 0 }])
    );
    assert_eq!(
        s.pwm.set_duty_cycle(0, s.pwm.max_duty_cycle()),
        Ok(vec![
            RegWrite { channel: 0, reg: RegName::Param, value: 1 },
            RegWrite { channel: 0, reg: RegName::En, value: 1 },
        ])
    );
}

#[test]
fn failed_configuration_changes_nothing() {
    let mut s = Bench::new();
    s.configure(1_000, 0x8000).unwrap();
    let before = s.regs.ch0_param().read().bits();
    assert_eq!(s.configure(20_000_000, 0x8000), Err(PwmError::FreqOutOfRange));
    assert_eq!(s.regs.ch0_param().read().bits(), before);
    s.set_duty(0x8000).unwrap();
    assert_eq!(s.regs.ch0_param().read().bits(), before);
}

#[test]
fn register_fields() {
    let mut regs = blank();
    let mut w = pac::pwm::ch1_param::W::reset();
    w.period().bits(0x1_2345);
    w.offperiod().bits(0xabcd);
    regs.ch1_param_mut().write(w);
    assert_eq!(regs.ch1_param().read().bits(), 0xabcd_2345);
    assert_eq!(regs.ch1_param().read().period().bits(), 0x2345);
    assert_eq!(regs.ch1_param().read().offperiod().bits(), 0xabcd);

    let mut w = pac::pwm::ch0_phase::W::reset();
    w.bits(0xffff_ffff);
    w.prescale().bits(8);
    regs.ch0_phase_mut().write(w);
    assert_eq!(regs.ch0_phase().read().bits(), 0xfff8_ffff);
    assert_eq!(regs.ch0_phase().read().prescale().bits(), 8);

    let mut w = pac::pwm::ch1_en::W::reset();
    w.enable().set_bit();
    regs.ch1_en_mut().write(w);
    assert!(regs.ch1_en().read().enable().bit());
    regs.ch1_en_mut().reset();
    assert_eq!(regs.ch1_en().read().bits(), 0);

    let mut w = pac::pwm::ch1_update::W::reset();
    w.bits(1);
    regs.ch1_update_mut().write(w);
    assert_eq!(regs.ch1_update().value, 1);
    assert_eq!(regs.ch0_update().value, 0);
}
