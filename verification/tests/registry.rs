use cxd56::clocks::shared::Change;
use cxd56::clocks::{ClockRef, Clocks, GearError, Perf, PerfControl, PeripheralId};
use cxd56::registry::{
    Bracket, BracketAction, ChangeError, ClockSink, DelayDriver, DelaySink, Error, PmError,
    RegistryPerf, SinkError, SpiDriver, SpiError, SpiSink, UartDriver, UartError, UartSink,
};
use cxd56::units::Hertz;

fn sample(hz: u32) -> Clocks {
    let f = Hertz::from_hz(hz);
    Clocks {
        xosc: f,
        rcosc: f,
        rtc: f,
        scu: f,
        hpadc: f,
        lpadc: f,
        syspll: f,
        sys: f,
        sys_ahb: f,
        sys_apb: f,
        sys_sfc: f,
        com: f,
        pmui2c: f,
        gps_cpu: f,
        gps_ahb: f,
        appsmp: f,
        usb: f,
        sdio: f,
        img_uart: f,
        img_spi: f,
        img_wspi: f,
        img_vsync: f,
    }
}

#[derive(Debug, PartialEq)]
struct Port {
    pending: u32,
    divisor: u32,
}

impl UartDriver for Port {
    type Config = u32;

    fn flush(&mut self) {
        self.pending = 0;
    }

    fn reconfigure(&mut self, baud: &u32, clock: &ClockRef) -> Result<(), UartError> {
        if *baud == 0 {
            return Err(UartError(9));
        }
        self.divisor = clock.com().to_hz() / *baud;
        Ok(())
    }
}

#[derive(Debug, PartialEq)]
struct Bus {
    stuck: bool,
    divisor: u32,
}

impl SpiDriver for Bus {
    type Config = u32;

    fn flush(&mut self) -> Result<(), SpiError> {
        if self.stuck {
            Err(SpiError(1))
        } else {
            Ok(())
        }
    }

    fn reconfigure(&mut self, freq: &u32, clock: &ClockRef) -> Result<(), SpiError> {
        if *freq == 0 {
            return Err(SpiError(2));
        }
        self.divisor = clock.img_spi().to_hz() / *freq;
        Ok(())
    }
}

#[derive(Debug, PartialEq)]
struct Timer {
    per_us: u32,
    rebuilds: u32,
}

impl DelayDriver for Timer {
    fn rebuilt(self, clock: &ClockRef) -> Timer {
        Timer { per_us: clock.appsmp().to_hz() / 1_000_000, rebuilds: self.rebuilds + 1 }
    }
}

struct Sinks {
    uart: UartSink<Port>,
    spi: SpiSink<Bus>,
    delay: DelaySink<Timer>,
    log: Vec<BracketAction>,
}

impl Sinks {
    fn new() -> Sinks {
        let mut s = Sinks {
            uart: UartSink::default(),
            spi: SpiSink::default(),
            delay: DelaySink::default(),
            log: Vec::new(),
        };
        s.uart.install(Port { pending: 3, divisor: 0 }, 100);
        s.spi.install(Bus { stuck: false, divisor: 0 }, 1_000);
        s.delay.install(Timer { per_us: 0, rebuilds: 0 });
        s
    }

    fn sink(&mut self, i: usize) -> &mut dyn ClockSink {
        match i {
            0 => &mut self.uart,
            1 => &mut self.spi,
            _ => &mut self.delay,
        }
    }

    fn drive(
        &mut self,
        mut b: Bracket<'_, 3>,
        outcome: Result<Clocks, ChangeError>,
    ) -> Result<(), Error> {
        while let Some(a) = b.action() {
            self.log.push(a);
            match a {
                BracketAction::Quiesce(i) => {
                    let r = self.sink(i).quiesce();
                    b.quiesced(r);
                }
                BracketAction::Change(_) => b.changed(outcome),
                BracketAction::Reconfigure(i) => {
                    let clock = *b.clock();
                    let r = self.sink(i).reconfigure(&clock);
                    b.reconfigured(r);
                }
            }
        }
        b.outcome().unwrap()
    }
}

fn registry() -> RegistryPerf<3> {
    RegistryPerf::new(PerfControl::new(ClockRef::from_crg(sample(1_000_000))))
}

#[test]
fn change_is_bracketed() {
    let mut r = registry();
    let mut s = Sinks::new();
    let outcome = s.drive(r.request_perf(Perf::Lp), Ok(sample(2_000_000)));
    assert_eq!(outcome, Ok(()));
    assert_eq!(
        s.log,
        vec![
            BracketAction::Quiesce(0),
            BracketAction::Quiesce(1),
            BracketAction::Quiesce(2),
            BracketAction::Change(Change::Perf(Perf::Lp)),
            BracketAction::Reconfigure(0),
            BracketAction::Reconfigure(1),
            BracketAction::Reconfigure(2),
        ]
    );
    assert_eq!(r.clock().generation(), 1);
    assert_eq!(s.uart.with(|u| (u.pending, u.divisor)), Some((0, 20_000)));
    assert_eq!(s.spi.with(|b| b.divisor), Some(2_000));
    assert_eq!(s.delay.with(|d| (d.per_us, d.rebuilds)), Some((2, 1)));
}

#[test]
fn sink_that_cannot_be_quiesced_keeps_the_clock() {
    let mut r = registry();
    let mut s = Sinks::new();
    s.spi.with(|b| b.stuck = true);
    let outcome = s.drive(r.request_perf(Perf::Lp), Ok(sample(2_000_000)));
    assert_eq!(outcome, Err(Error::Sink(SinkError::Spi(SpiError(1)))));
    assert_eq!(s.log, vec![BracketAction::Quiesce(0), BracketAction::Quiesce(1)]);
    assert_eq!(r.clock().generation(), 0);
    assert_eq!(s.uart.with(|u| u.divisor), Some(0));
}

#[test]
fn failed_change_leaves_the_sinks_alone() {
    let mut r = registry();
    let mut s = Sinks::new();
    let outcome = s.drive(r.request_perf(Perf::Hp), Err(ChangeError::Perf(PmError(4))));
    assert_eq!(outcome, Err(Error::Perf(PmError(4))));
    assert_eq!(s.log.len(), 4);
    assert_eq!(r.clock().generation(), 0);
    let refused = Err(ChangeError::Gear(GearError::Unsupported));
    let outcome = s.drive(r.set_gear(PeripheralId::Spi4, 2), refused);
    assert_eq!(outcome, Err(Error::Gear(GearError::Unsupported)));
}

#[test]
fn sink_that_cannot_be_reconfigured() {
    let mut r = registry();
    let mut s = Sinks::new();
    s.uart.install(Port { pending: 0, divisor: 7 }, 0);
    let outcome = s.drive(r.set_gear(PeripheralId::Usb, 2), Ok(sample(5)));
    assert_eq!(outcome, Err(Error::Sink(SinkError::Uart(UartError(9)))));
    assert_eq!(r.clock().generation(), 1);
    assert_eq!(s.log.last(), Some(&BracketAction::Reconfigure(0)));
    let mut s = Sinks::new();
    s.spi.install(Bus { stuck: false, divisor: 7 }, 0);
    let outcome = s.drive(r.set_gear(PeripheralId::Usb, 2), Ok(sample(5)));
    assert_eq!(outcome, Err(Error::Sink(SinkError::Spi(SpiError(2)))));
}

#[test]
fn divider_is_checked_after_the_sinks_are_quiet() {
    let mut r = registry();
    let mut s = Sinks::new();
    let outcome = s.drive(r.set_gear(PeripheralId::Usb, 9), Ok(sample(5)));
    assert_eq!(outcome, Err(Error::Gear(GearError::OutOfRange)));
    assert_eq!(s.log.len(), 3);
    let outcome = s.drive(
        r.set_spi_gear(PeripheralId::Usb, Hertz::from_hz(1)),
        Ok(sample(5)),
    );
    assert_eq!(outcome, Err(Error::Gear(GearError::Unsupported)));
    let outcome = s.drive(
        r.set_spi_gear(PeripheralId::Spi4, Hertz::from_hz(1)),
        Ok(sample(5)),
    );
    assert_eq!(outcome, Ok(()));
}

#[test]
fn empty_sinks_do_nothing() {
    let mut u: UartSink<Port> = UartSink::new();
    let mut s: SpiSink<Bus> = SpiSink::new();
    let mut d: DelaySink<Timer> = DelaySink::new();
    let clock = ClockRef::from_crg(sample(1));
    assert_eq!(u.quiesce(), Ok(()));
    assert_eq!(u.reconfigure(&clock), Ok(()));
    assert_eq!(s.quiesce(), Ok(()));
    assert_eq!(s.reconfigure(&clock), Ok(()));
    assert_eq!(d.quiesce(), Ok(()));
    assert_eq!(d.reconfigure(&clock), Ok(()));
    assert_eq!(u.with(|_| 1), None);
    assert_eq!(s.with(|_| 1), None);
    assert_eq!(d.with(|_| 1), None);
}

#[test]
fn registry_without_sinks() {
    let mut r: RegistryPerf<0> =
        RegistryPerf::new(PerfControl::new(ClockRef::from_crg(sample(1))));
    let mut b = r.request_perf(Perf::Hp);
    assert_eq!(b.action(), Some(BracketAction::Change(Change::Perf(Perf::Hp))));
    b.changed(Ok(sample(2)));
    assert_eq!(b.outcome(), Some(Ok(())));
    assert_eq!(r.clock().com().to_hz(), 2);
}
