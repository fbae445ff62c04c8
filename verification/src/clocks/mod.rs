//! The clock tree: what a sample of it holds, its operating points, and the dividers of single
//! peripherals.

use vstd::prelude::*;

use crate::units::Hertz;

pub use profile::{Clock, Dyn, Fixed, Hp, Lp, PerfState};
pub use shared::{ClockRef, PerfControl};

pub mod profile;
pub mod shared;

verus! {

/// An operating point that the tree can be locked at.
#[derive(Clone, Copy, Debug, PartialEq, Eq, Structural)]
pub enum Perf {
    /// High voltage, application cores at 156 MHz.
    Hp,
    /// Low voltage, application cores at 31.2 MHz.
    Lp,
}

/// The clock and reset generator. There is one.
pub struct Crg {}

/// One sample of every readable clock.
#[derive(Clone, Copy, Debug, PartialEq, Eq, Structural)]
pub struct Clocks {
    pub xosc: Hertz,
    pub rcosc: Hertz,
    pub rtc: Hertz,
    pub scu: Hertz,
    pub hpadc: Hertz,
    pub lpadc: Hertz,
    pub syspll: Hertz,
    pub sys: Hertz,
    pub sys_ahb: Hertz,
    pub sys_apb: Hertz,
    pub sys_sfc: Hertz,
    pub com: Hertz,
    pub pmui2c: Hertz,
    pub gps_cpu: Hertz,
    pub gps_ahb: Hertz,
    pub appsmp: Hertz,
    pub usb: Hertz,
    pub sdio: Hertz,
    pub img_uart: Hertz,
    pub img_spi: Hertz,
    pub img_wspi: Hertz,
    pub img_vsync: Hertz,
}

impl Clocks {
    /// The rates of `newer`, except that the clocks that no operating point moves keep the rates
    /// that they have here.
    pub open spec fn refreshed(self, newer: Clocks) -> Clocks {
        Clocks {
            xosc: self.xosc,
            rcosc: self.rcosc,
            rtc: self.rtc,
            scu: self.scu,
            hpadc: self.hpadc,
            lpadc: self.lpadc,
            ..newer
        }
    }

    /// The operating point that these rates show: the system PLL at 156 MHz, and the application
    /// clock above 100 MHz or below 50 MHz. Any other tree is not locked.
    pub open spec fn signature(self) -> Option<Perf> {
        if self.syspll.raw != 156_000_000 {
            None
        } else if self.appsmp.raw > 100_000_000 {
            Some(Perf::Hp)
        } else if self.appsmp.raw < 50_000_000 {
            Some(Perf::Lp)
        } else {
            None
        }
    }

    /// Tells which operating point these rates show, if any.
    pub fn perf(&self) -> (p: Option<Perf>)
        ensures
            p == self.signature(),
    {
        if self.syspll.to_hz() != 156_000_000 {
            return None;
        }
        let appsmp: u32 = self.appsmp.to_hz();
        if appsmp > 100_000_000 {
            Some(Perf::Hp)
        } else if appsmp < 50_000_000 {
            Some(Perf::Lp)
        } else {
            None
        }
    }
}

/// A peripheral, by the divider that its base clock has.
#[derive(Clone, Copy, Debug, PartialEq, Eq, Structural)]
pub enum PeripheralId {
    /// UART2.
    ImgUart,
    Spi4,
    Spi5,
    Usb,
    Sdio,
    /// A peripheral whose base clock has no divider of its own.
    Ungeared,
}

/// Why a divider was not set.
#[derive(Clone, Copy, Debug, PartialEq, Eq, Structural)]
pub enum GearError {
    /// The peripheral has no such divider.
    Unsupported,
    /// The divisor does not fit the divider.
    OutOfRange,
}

/// A change of a divider.
#[derive(Clone, Copy, Debug, PartialEq, Eq, Structural)]
pub enum GearRequest {
    /// Make the base clock of `id` the application clock over `divisor`.
    Divide { id: PeripheralId, divisor: u32 },
    /// Pick the divisor of `port` so that its serial clock, from an application clock of `appsmp`,
    /// is at most `maxfreq`.
    SpiLimit { port: PeripheralId, appsmp: Hertz, maxfreq: Hertz },
}

impl PeripheralId {
    /// The largest divisor of this peripheral's divider, if it has one.
    pub open spec fn spec_max_divisor(self) -> Option<u32> {
        match self {
            PeripheralId::ImgUart | PeripheralId::Spi4 => Some(0x7f),
            PeripheralId::Spi5 => Some(0xf),
            PeripheralId::Usb | PeripheralId::Sdio => Some(0x3),
            PeripheralId::Ungeared => None,
        }
    }

    /// The divider change for `divisor`, or why there is none.
    pub open spec fn spec_gear(self, divisor: u32) -> Result<GearRequest, GearError> {
        match self.spec_max_divisor() {
            None => Err(GearError::Unsupported),
            Some(max) => if 1 <= divisor <= max {
                Ok(GearRequest::Divide { id: self, divisor })
            } else {
                Err(GearError::OutOfRange)
            },
        }
    }

    /// The divider change that keeps the serial clock at or below `maxfreq`, or why there is none.
    pub open spec fn spec_spi_gear(self, appsmp: Hertz, maxfreq: Hertz) -> Result<
        GearRequest,
        GearError,
    > {
        if self == PeripheralId::Spi4 || self == PeripheralId::Spi5 {
            Ok(GearRequest::SpiLimit { port: self, appsmp, maxfreq })
        } else {
            Err(GearError::Unsupported)
        }
    }

    /// Checks a divisor against this peripheral's divider.
    pub fn gear(self, divisor: u32) -> (r: Result<GearRequest, GearError>)
        ensures
            r == self.spec_gear(divisor),
    {
        let max: u32 = match self {
            PeripheralId::ImgUart | PeripheralId::Spi4 => 0x7f,
            PeripheralId::Spi5 => 0xf,
            PeripheralId::Usb | PeripheralId::Sdio => 0x3,
            PeripheralId::Ungeared => {
                return Err(GearError::Unsupported);
            },
        };
        if 1 <= divisor && divisor <= max {
            Ok(GearRequest::Divide { id: self, divisor })
        } else {
            Err(GearError::OutOfRange)
        }
    }

    /// Checks that this peripheral is an SPI port with a divider.
    pub fn spi_gear(self, appsmp: Hertz, maxfreq: Hertz) -> (r: Result<GearRequest, GearError>)
        ensures
            r == self.spec_spi_gear(appsmp, maxfreq),
    {
        if self == PeripheralId::Spi4 || self == PeripheralId::Spi5 {
            Ok(GearRequest::SpiLimit { port: self, appsmp, maxfreq })
        } else {
            Err(GearError::Unsupported)
        }
    }
}

/// A divider is set to exactly the divisor that was asked for, on exactly the peripheral that was
/// named, if it is from 1 to 127 for UART2 and SPI4, to 15 for SPI5, or to 3 for USB and SDIO. Any
/// other divisor is out of range, and a peripheral without a divider does not have one.
pub proof fn law_divisor_is_the_one_asked_for(id: PeripheralId, divisor: u32)
    ensures
        match id.spec_gear(divisor) {
            Ok(GearRequest::Divide { id: i, divisor: d }) => i == id && d == divisor && 1 <= divisor
                && match id {
                PeripheralId::ImgUart | PeripheralId::Spi4 => divisor <= 127,
                PeripheralId::Spi5 => divisor <= 15,
                PeripheralId::Usb | PeripheralId::Sdio => divisor <= 3,
                PeripheralId::Ungeared => false,
            },
            Ok(GearRequest::SpiLimit { .. }) => false,
            Err(GearError::Unsupported) => id == PeripheralId::Ungeared,
            Err(GearError::OutOfRange) => divisor == 0 || match id {
                PeripheralId::ImgUart | PeripheralId::Spi4 => divisor > 127,
                PeripheralId::Spi5 => divisor > 15,
                PeripheralId::Usb | PeripheralId::Sdio => divisor > 3,
                PeripheralId::Ungeared => false,
            },
        },
{
}

/// A limit on a serial clock reaches the port that was named, with the application clock and the
/// limit that were given; only SPI4 and SPI5 have one.
pub proof fn law_limit_is_the_one_asked_for(port: PeripheralId, appsmp: Hertz, maxfreq: Hertz)
    ensures
        match port.spec_spi_gear(appsmp, maxfreq) {
            Ok(GearRequest::SpiLimit { port: p, appsmp: a, maxfreq: f }) => p == port && a == appsmp
                && f == maxfreq && (port == PeripheralId::Spi4 || port == PeripheralId::Spi5),
            Ok(GearRequest::Divide { .. }) => false,
            Err(e) => e == GearError::Unsupported && port != PeripheralId::Spi4 && port
                != PeripheralId::Spi5,
        },
{
}

/// A refresh takes every rate that moves with the operating point from the newer sample, and every
/// other one from the older.
pub proof fn law_refresh_takes_moving_rates(older: Clocks, newer: Clocks)
    ensures
        ({
            let r = older.refreshed(newer);
            &&& r.xosc == older.xosc
            &&& r.rcosc == older.rcosc
            &&& r.rtc == older.rtc
            &&& r.scu == older.scu
            &&& r.hpadc == older.hpadc
            &&& r.lpadc == older.lpadc
            &&& r.syspll == newer.syspll
            &&& r.sys == newer.sys
            &&& r.sys_ahb == newer.sys_ahb
            &&& r.sys_apb == newer.sys_apb
            &&& r.sys_sfc == newer.sys_sfc
            &&& r.com == newer.com
            &&& r.pmui2c == newer.pmui2c
            &&& r.gps_cpu == newer.gps_cpu
            &&& r.gps_ahb == newer.gps_ahb
            &&& r.appsmp == newer.appsmp
            &&& r.usb == newer.usb
            &&& r.sdio == newer.sdio
            &&& r.img_uart == newer.img_uart
            &&& r.img_spi == newer.img_spi
            &&& r.img_wspi == newer.img_wspi
            &&& r.img_vsync == newer.img_vsync
        }),
{
}

/// A tree shows an operating point only with its PLL at 156 MHz, and then the high one exactly with
/// an application clock above 100 MHz, and the low one exactly with one below 50 MHz.
pub proof fn law_operating_points(c: Clocks)
    ensures
        c.signature() == Some(Perf::Hp) <==> c.syspll.raw == 156_000_000 && c.appsmp.raw
            > 100_000_000,
        c.signature() == Some(Perf::Lp) <==> c.syspll.raw == 156_000_000 && c.appsmp.raw
            < 50_000_000,
{
}

} // verus!
