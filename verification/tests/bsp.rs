use cxd56::bsp::magnet::{self, Magnetometer};
use cxd56::bsp::motion::{self, Motion};
use cxd56::bsp::pressure::{self, Pressure, Read, ReadAction};
use cxd56::bsp::rg_led::{LedChange, RgLed, Write};

/// A bus with the port expander on it.
#[derive(Debug, PartialEq)]
struct Bus {
    output: u8,
    config: u8,
    writes: u32,
    broken: bool,
}

impl Bus {
    fn new() -> Bus {
        Bus { output: 0xff, config: 0xff, writes: 0, broken: false }
    }

    fn write(&mut self, w: Write) -> Result<(), u8> {
        if self.broken {
            return Err(1);
        }
        assert_eq!(w.address, 0x70);
        self.writes += 1;
        match w.reg {
            1 => self.output = w.value,
            3 => self.config = w.value,
            _ => panic!("no such register"),
        }
        Ok(())
    }

    fn red(&self) -> bool {
        self.config & 0x20 == 0 && self.output & 0x20 == 0
    }

    fn green(&self) -> bool {
        self.config & 0x10 == 0 && self.output & 0x10 == 0
    }
}

fn led(bus: Bus) -> Result<RgLed<Bus>, u8> {
    let mut init = RgLed::new(bus);
    while let Some(w) = init.write() {
        let r = init.bus().write(w);
        assert!(!init.bus().red() && !init.bus().green());
        init = init.advance(r)?;
    }
    Ok(init.finish().unwrap())
}

fn apply(mut c: LedChange<'_, Bus>) -> Result<(), u8> {
    let w = c.write();
    let r = c.bus().write(w);
    c.finish(r)
}

#[test]
fn lights() {
    let mut l = led(Bus::new()).unwrap();
    assert!(!l.is_red_on() && !l.is_green_on());
    apply(l.red_on()).unwrap();
    assert!(l.is_red_on() && !l.is_green_on());
    apply(l.green_on()).unwrap();
    assert!(l.is_red_on() && l.is_green_on());
    apply(l.red_off()).unwrap();
    assert!(!l.is_red_on() && l.is_green_on());
    apply(l.green_off()).unwrap();
    apply(l.set_green(true)).unwrap();
    apply(l.set_red(true)).unwrap();
    let bus = l.free();
    assert_eq!(bus, Bus { output: 0xcf, config: 0xcf, writes: 8, broken: false });
    assert!(bus.red() && bus.green());
    // A new driver turns both off.
    let mut l = led(bus).unwrap();
    apply(l.set_red(true)).unwrap();
    apply(l.both_off()).unwrap();
    let bus = l.free();
    assert!(!bus.red() && !bus.green());
    assert_eq!(bus.output, 0xff);
}

#[test]
fn other_ports_stay_set() {
    let mut l = led(Bus::new()).unwrap();
    for i in 0..40u32 {
        let on = i % 3 == 0;
        let mut c = match i % 5 {
            0 | 3 => l.set_red(on),
            4 => l.both_off(),
            _ => l.set_green(on),
        };
        assert_eq!(c.write().value & 0xcf, 0xcf);
        c.bus().broken = i % 7 == 6;
        let _ = apply(c);
    }
    assert_eq!(l.free().output & 0xcf, 0xcf);
}

#[test]
fn failed_writes_change_nothing() {
    let mut bus = Bus::new();
    bus.broken = true;
    assert!(led(bus).is_err());
    let mut l = led(Bus::new()).unwrap();
    apply(l.red_on()).unwrap();
    let mut c = l.green_on();
    c.bus().broken = true;
    assert_eq!(apply(c), Err(1));
    assert!(l.is_red_on() && !l.is_green_on());
    let bus = l.free();
    assert!(bus.red() && !bus.green());
}

#[test]
fn light_is_not_ready_before_its_writes() {
    let init = RgLed::new(Bus::new());
    assert_eq!(init.write(), Some(Write { address: 0x70, reg: 1, value: 0xff }));
    let init = init.advance::<u8>(Ok(())).ok().unwrap();
    assert_eq!(init.write(), Some(Write { address: 0x70, reg: 3, value: 0xcf }));
    assert!(init.finish().is_none());
}

#[test]
fn magnetometer_comes_up() {
    let mut m = Magnetometer::new();
    for (action, read) in [
        (magnet::InitAction::SoftwareReset, 0),
        (magnet::InitAction::BlockDataUpdate, 0),
        (magnet::InitAction::ContinuousMode, 0),
        (magnet::InitAction::DeviceId, 0x40),
    ] {
        assert_eq!(m.action(), Some(action));
        assert_eq!(m.step(Err(9)), Err(magnet::InitError::Bus(9)));
        m = m.step::<u8>(Ok(read)).unwrap();
    }
    assert_eq!(m, Magnetometer::Ready);
    assert_eq!(m.action(), None);
    assert_eq!(
        Magnetometer::Identify.step::<u8>(Ok(0x41)),
        Err(magnet::InitError::UnexpectedValue)
    );
    assert!(Magnetometer::data_ready(1));
    assert!(!Magnetometer::data_ready(0));
    assert_eq!(magnet::WHO_AM_I, lis2mdl_rs::blocking::ID);
}

#[test]
fn motion_sensor_comes_up() {
    let mut m = Motion::new();
    assert_eq!(m.step(Err(9)), Err(motion::InitError::InvalidData));
    for action in [motion::InitAction::CheckId, motion::InitAction::Setup, motion::InitAction::AccelRate, motion::InitAction::GyroRate] {
        assert_eq!(m.action(), Some(action));
        m = m.step::<u8>(Ok(())).unwrap();
        if m != Motion::Ready {
            assert_eq!(m.step(Err(9)), Err(motion::InitError::Driver(9)));
        }
    }
    assert_eq!(m.action(), None);
    assert!(Motion::accel_ready(0b01) && !Motion::accel_ready(0b110));
    assert!(Motion::gyro_ready(0b10) && !Motion::gyro_ready(0b101));
    assert_eq!(motion::optional::<u8, u8>(Ok(3)), Ok(Some(3)));
    assert_eq!(motion::optional::<u8, u8>(Err(motion::ReadError::NoDataReady)), Ok(None));
    assert_eq!(motion::optional::<u8, u8>(Err(motion::ReadError::Other(4))), Err(4));
}

#[test]
fn pressure_sensor_comes_up() {
    let mut p = Pressure::new();
    for (action, read) in [
        (pressure::InitAction::ResetSet, 0),
        (pressure::InitAction::ResetGet, 1),
        (pressure::InitAction::ResetGet, 1),
        (pressure::InitAction::ResetGet, 0),
        (pressure::InitAction::DeviceId, 0xb3),
        (pressure::InitAction::BlockDataUpdate, 0),
        (pressure::InitAction::DataRate, 0),
    ] {
        assert_eq!(p.action(), Some(action));
        assert_eq!(p.step(Err(9)), Err(pressure::InitError::Bus(9)));
        p = p.step::<u8>(Ok(read)).unwrap();
    }
    assert_eq!(p.action(), None);
    assert_eq!(
        Pressure::Identify.step::<u8>(Ok(0xb1)),
        Err(pressure::InitError::UnexpectedValue)
    );
    assert!(Pressure::pressure_ready(1) && !Pressure::pressure_ready(0));
    assert_eq!(pressure::WHO_AM_I, lps22hh_rs::blocking::ID);
}

#[test]
fn pressure_is_read_when_both_values_are_new() {
    let r = Read::new();
    assert_eq!(r.action(), Some(ReadAction::PressureFlag));
    assert_eq!(r.flag(0).action(), None);
    let r = r.flag(1);
    assert_eq!(r.action(), Some(ReadAction::TemperatureFlag));
    assert_eq!(r.flag(0).action(), None);
    assert_eq!(r.flag(1).action(), Some(ReadAction::Sample));
}
