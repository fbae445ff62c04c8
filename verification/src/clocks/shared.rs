//! The shared clock: rates that every peripheral may read, and a counter by which a peripheral
//! sees that they moved.

use vstd::prelude::*;

use crate::clocks::{Clocks, GearError, GearRequest, Perf, PeripheralId};
use crate::units::Hertz;

verus! {

/// Rates in hertz. Those of the first six clocks never change; the others change together, and
/// each change counts up the generation.
#[derive(Clone, Copy, Debug, PartialEq, Eq, Structural)]
pub struct ClockRef {
    pub xosc: u32,
    pub rcosc: u32,
    pub rtc: u32,
    pub scu: u32,
    pub hpadc: u32,
    pub lpadc: u32,
    com: u32,
    appsmp: u32,
    syspll: u32,
    sys: u32,
    sys_ahb: u32,
    sys_apb: u32,
    sys_sfc: u32,
    pmui2c: u32,
    gps_cpu: u32,
    gps_ahb: u32,
    usb: u32,
    sdio: u32,
    img_uart: u32,
    img_spi: u32,
    img_wspi: u32,
    img_vsync: u32,
    gen_counter: u32,
}

impl ClockRef {
    /// Every rate.
    pub closed spec fn rates(self) -> Clocks {
        Clocks {
            xosc: Hertz { raw: self.xosc },
            rcosc: Hertz { raw: self.rcosc },
            rtc: Hertz { raw: self.rtc },
            scu: Hertz { raw: self.scu },
            hpadc: Hertz { raw: self.hpadc },
            lpadc: Hertz { raw: self.lpadc },
            syspll: Hertz { raw: self.syspll },
            sys: Hertz { raw: self.sys },
            sys_ahb: Hertz { raw: self.sys_ahb },
            sys_apb: Hertz { raw: self.sys_apb },
            sys_sfc: Hertz { raw: self.sys_sfc },
            com: Hertz { raw: self.com },
            pmui2c: Hertz { raw: self.pmui2c },
            gps_cpu: Hertz { raw: self.gps_cpu },
            gps_ahb: Hertz { raw: self.gps_ahb },
            appsmp: Hertz { raw: self.appsmp },
            usb: Hertz { raw: self.usb },
            sdio: Hertz { raw: self.sdio },
            img_uart: Hertz { raw: self.img_uart },
            img_spi: Hertz { raw: self.img_spi },
            img_wspi: Hertz { raw: self.img_wspi },
            img_vsync: Hertz { raw: self.img_vsync },
        }
    }

    /// How often the rates were refreshed, up to the counter's width.
    pub closed spec fn epoch(self) -> u32 {
        self.gen_counter
    }

    /// The shared clock that a first sample of the generator's rates gives.
    pub fn from_crg(sample: Clocks) -> (r: ClockRef)
        ensures
            r.rates() == sample,
            r.epoch() == 0,
    {
        ClockRef::from_clocks(&sample)
    }

    /// The shared clock with the rates of `c`, at generation 0.
    pub fn from_clocks(c: &Clocks) -> (r: ClockRef)
        ensures
            r.rates() == *c,
            r.epoch() == 0,
    {
        ClockRef {
            xosc: c.xosc.to_hz(),
            rcosc: c.rcosc.to_hz(),
            rtc: c.rtc.to_hz(),
            scu: c.scu.to_hz(),
            hpadc: c.hpadc.to_hz(),
            lpadc: c.lpadc.to_hz(),
            com: c.com.to_hz(),
            appsmp: c.appsmp.to_hz(),
            syspll: c.syspll.to_hz(),
            sys: c.sys.to_hz(),
            sys_ahb: c.sys_ahb.to_hz(),
            sys_apb: c.sys_apb.to_hz(),
            sys_sfc: c.sys_sfc.to_hz(),
            pmui2c: c.pmui2c.to_hz(),
            gps_cpu: c.gps_cpu.to_hz(),
            gps_ahb: c.gps_ahb.to_hz(),
            usb: c.usb.to_hz(),
            sdio: c.sdio.to_hz(),
            img_uart: c.img_uart.to_hz(),
            img_spi: c.img_spi.to_hz(),
            img_wspi: c.img_wspi.to_hz(),
            img_vsync: c.img_vsync.to_hz(),
            gen_counter: 0,
        }
    }

    /// The crystal oscillator.
    pub fn xosc(&self) -> (f: Hertz)
        ensures
            f == self.rates().xosc,
    {
        Hertz::from_hz(self.xosc)
    }

    /// The RC oscillator.
    pub fn rcosc(&self) -> (f: Hertz)
        ensures
            f == self.rates().rcosc,
    {
        Hertz::from_hz(self.rcosc)
    }

    /// The real-time clock.
    pub fn rtc(&self) -> (f: Hertz)
        ensures
            f == self.rates().rtc,
    {
        Hertz::from_hz(self.rtc)
    }

    /// The sensor control unit.
    pub fn scu(&self) -> (f: Hertz)
        ensures
            f == self.rates().scu,
    {
        Hertz::from_hz(self.scu)
    }

    /// The clock of the HPADC converter.
    pub fn hpadc(&self) -> (f: Hertz)
        ensures
            f == self.rates().hpadc,
    {
        Hertz::from_hz(self.hpadc)
    }

    /// The clock of the LPADC converter.
    pub fn lpadc(&self) -> (f: Hertz)
        ensures
            f == self.rates().lpadc,
    {
        Hertz::from_hz(self.lpadc)
    }

    /// Takes the rates that move with the operating point from `c`, and counts up the generation,
    /// which starts over at 0 past its largest value.
    pub fn resample(&mut self, c: &Clocks)
        ensures
            final(self).rates() == old(self).rates().refreshed(*c),
            final(self).epoch() == if old(self).epoch() == u32::MAX {
                0
            } else {
                old(self).epoch() + 1
            },
    {
        self.com = c.com.to_hz();
        self.appsmp = c.appsmp.to_hz();
        self.syspll = c.syspll.to_hz();
        self.sys = c.sys.to_hz();
        self.sys_ahb = c.sys_ahb.to_hz();
        self.sys_apb = c.sys_apb.to_hz();
        self.sys_sfc = c.sys_sfc.to_hz();
        self.pmui2c = c.pmui2c.to_hz();
        self.gps_cpu = c.gps_cpu.to_hz();
        self.gps_ahb = c.gps_ahb.to_hz();
        self.usb = c.usb.to_hz();
        self.sdio = c.sdio.to_hz();
        self.img_uart = c.img_uart.to_hz();
        self.img_spi = c.img_spi.to_hz();
        self.img_wspi = c.img_wspi.to_hz();
        self.img_vsync = c.img_vsync.to_hz();
        self.gen_counter = self.gen_counter.wrapping_add(1);
    }

    /// The COM bus.
    pub fn com(&self) -> (f: Hertz)
        ensures
            f == self.rates().com,
    {
        Hertz::from_hz(self.com)
    }

    /// The application cores.
    pub fn appsmp(&self) -> (f: Hertz)
        ensures
            f == self.rates().appsmp,
    {
        Hertz::from_hz(self.appsmp)
    }

    /// The system PLL.
    pub fn syspll(&self) -> (f: Hertz)
        ensures
            f == self.rates().syspll,
    {
        Hertz::from_hz(self.syspll)
    }

    /// The root bus of the system and I/O domain.
    pub fn sys(&self) -> (f: Hertz)
        ensures
            f == self.rates().sys,
    {
        Hertz::from_hz(self.sys)
    }

    /// The AHB of the system and I/O domain.
    pub fn sys_ahb(&self) -> (f: Hertz)
        ensures
            f == self.rates().sys_ahb,
    {
        Hertz::from_hz(self.sys_ahb)
    }

    /// The APB of the system and I/O domain.
    pub fn sys_apb(&self) -> (f: Hertz)
        ensures
            f == self.rates().sys_apb,
    {
        Hertz::from_hz(self.sys_apb)
    }

    /// The flash controller.
    pub fn sys_sfc(&self) -> (f: Hertz)
        ensures
            f == self.rates().sys_sfc,
    {
        Hertz::from_hz(self.sys_sfc)
    }

    /// The I2C bus of the power controller.
    pub fn pmui2c(&self) -> (f: Hertz)
        ensures
            f == self.rates().pmui2c,
    {
        Hertz::from_hz(self.pmui2c)
    }

    /// The positioning core.
    pub fn gps_cpu(&self) -> (f: Hertz)
        ensures
            f == self.rates().gps_cpu,
    {
        Hertz::from_hz(self.gps_cpu)
    }

    /// The AHB of the positioning domain.
    pub fn gps_ahb(&self) -> (f: Hertz)
        ensures
            f == self.rates().gps_ahb,
    {
        Hertz::from_hz(self.gps_ahb)
    }

    /// USB, divided from the application clock.
    pub fn usb(&self) -> (f: Hertz)
        ensures
            f == self.rates().usb,
    {
        Hertz::from_hz(self.usb)
    }

    /// SDIO, divided from the application clock.
    pub fn sdio(&self) -> (f: Hertz)
        ensures
            f == self.rates().sdio,
    {
        Hertz::from_hz(self.sdio)
    }

    /// UART2, divided from the application clock.
    pub fn img_uart(&self) -> (f: Hertz)
        ensures
            f == self.rates().img_uart,
    {
        Hertz::from_hz(self.img_uart)
    }

    /// SPI4, divided from the application clock.
    pub fn img_spi(&self) -> (f: Hertz)
        ensures
            f == self.rates().img_spi,
    {
        Hertz::from_hz(self.img_spi)
    }

    /// SPI5, divided from the application clock.
    pub fn img_wspi(&self) -> (f: Hertz)
        ensures
            f == self.rates().img_wspi,
    {
        Hertz::from_hz(self.img_wspi)
    }

    /// The image sensor's vertical sync.
    pub fn img_vsync(&self) -> (f: Hertz)
        ensures
            f == self.rates().img_vsync,
    {
        Hertz::from_hz(self.img_vsync)
    }

    /// How often the rates were refreshed. A peripheral that remembers the generation it was set
    /// up at sees from a new one that its divisor may be stale.
    pub fn generation(&self) -> (g: u32)
        ensures
            g == self.epoch(),
    {
        self.gen_counter
    }
}

/// A change of the clock tree that [`PerfControl`] can bring about.
#[derive(Clone, Copy, Debug, PartialEq, Eq, Structural)]
pub enum Change {
    /// Move to this operating point.
    Perf(Perf),
    /// Set a divider.
    Gear(GearRequest),
}

/// The right to change the clock tree, and the shared clock that each change refreshes.
///
/// Nothing here stops a transfer that is under way: see [`crate::registry`].
pub struct PerfControl {
    shared: ClockRef,
}

impl PerfControl {
    /// The shared clock.
    pub closed spec fn clock_view(self) -> ClockRef {
        self.shared
    }

    pub fn new(shared: ClockRef) -> (r: PerfControl)
        ensures
            r.clock_view() == shared,
    {
        PerfControl { shared }
    }

    /// The shared clock as it stands.
    pub fn clock(&self) -> (r: &ClockRef)
        ensures
            *r == self.clock_view(),
    {
        &self.shared
    }

    /// The change that moves the tree to `perf`. [`PerfControl::complete`] takes what came of it.
    pub fn request_perf(&self, perf: Perf) -> (c: Change)
        ensures
            c == Change::Perf(perf),
    {
        Change::Perf(perf)
    }

    /// The change that sets the divider of `id`, or why there is none.
    pub fn set_gear(&self, id: PeripheralId, divisor: u32) -> (r: Result<Change, GearError>)
        ensures
            match (id.spec_gear(divisor), r) {
                (Ok(q), Ok(c)) => c == Change::Gear(q),
                (Err(e), Err(f)) => f == e,
                _ => false,
            },
    {
        match id.gear(divisor) {
            Ok(q) => Ok(Change::Gear(q)),
            Err(e) => Err(e),
        }
    }

    /// The change that keeps the serial clock of an SPI port at or below `maxfreq`, or why there
    /// is none.
    pub fn set_spi_gear(&self, port: PeripheralId, maxfreq: Hertz) -> (r: Result<Change, GearError>)
        ensures
            match (port.spec_spi_gear(self.clock_view().rates().appsmp, maxfreq), r) {
                (Ok(q), Ok(c)) => c == Change::Gear(q),
                (Err(e), Err(f)) => f == e,
                _ => false,
            },
    {
        match port.spi_gear(self.shared.appsmp(), maxfreq) {
            Ok(q) => Ok(Change::Gear(q)),
            Err(e) => Err(e),
        }
    }

    /// Ends a change with a sample that was taken after it, which refreshes the shared clock, or
    /// with why it failed, which leaves the shared clock as it was.
    pub fn complete<E>(&mut self, outcome: Result<Clocks, E>) -> (r: Result<(), E>)
        ensures
            match outcome {
                Ok(c) => {
                    &&& r is Ok
                    &&& final(self).clock_view().rates() == old(
                        self,
                    ).clock_view().rates().refreshed(c)
                    &&& final(self).clock_view().epoch() == if old(self).clock_view().epoch()
                        == u32::MAX {
                        0
                    } else {
                        old(self).clock_view().epoch() + 1
                    }
                },
                Err(e) => r == Err::<(), E>(e) && *final(self) == *old(self),
            },
    {
        match outcome {
            Ok(c) => {
                self.shared.resample(&c);
                Ok(())
            },
            Err(e) => Err(e),
        }
    }
}

} // verus!
