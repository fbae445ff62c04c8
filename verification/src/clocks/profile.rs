//! The owned clock: a sample of the tree at a locked operating point.
//!
//! [`Clock`] carries the operating point in its type. Moving the point takes the clock by value,
//! and a divider change takes it by exclusive borrow, so neither can happen while a peripheral
//! borrows a rate that the change would move.

use vstd::prelude::*;

use crate::clocks::{Clocks, Crg, GearError, GearRequest, Perf, PeripheralId};
use crate::sealed::Sealed;
use crate::units::Hertz;
use std::marker::PhantomData;

verus! {

/// The rate of a clock that no operating point moves. It can be kept.
#[derive(Clone, Copy, Debug, PartialEq, Eq, Structural)]
pub struct Fixed(pub Hertz);

impl Fixed {
    /// The rate.
    pub fn hz(&self) -> (f: Hertz)
        ensures
            f == self.0,
    {
        self.0
    }
}

/// The rate of a clock that moves with the operating point. It can only be borrowed from the
/// [`Clock`] that holds it.
pub struct Dyn(Hertz);

impl Dyn {
    /// The rate.
    pub closed spec fn rate(self) -> Hertz {
        self.0
    }

    /// The rate.
    pub fn hz(&self) -> (f: Hertz)
        ensures
            f == self.rate(),
    {
        self.0
    }
}

/// Marker: locked at [`Perf::Hp`].
pub struct Hp;

/// Marker: locked at [`Perf::Lp`].
pub struct Lp;

impl Sealed for Hp {

}

impl Sealed for Lp {

}

/// The operating point that a marker stands for. There is no marker for an unlocked tree, and no
/// other crate can add one.
pub trait PerfState: Sealed {
    const PERF: Perf;
}

impl PerfState for Hp {
    const PERF: Perf = Perf::Hp;
}

impl PerfState for Lp {
    const PERF: Perf = Perf::Lp;
}

/// The clock tree, locked at the operating point `P`.
pub struct Clock<P: PerfState> {
    crg: Crg,
    pub xosc: Fixed,
    pub rcosc: Fixed,
    pub rtc: Fixed,
    pub scu: Fixed,
    pub hpadc: Fixed,
    pub lpadc: Fixed,
    syspll: Dyn,
    sys: Dyn,
    sys_ahb: Dyn,
    sys_apb: Dyn,
    sys_sfc: Dyn,
    com: Dyn,
    pmui2c: Dyn,
    gps_cpu: Dyn,
    gps_ahb: Dyn,
    appsmp: Dyn,
    usb: Dyn,
    sdio: Dyn,
    img_uart: Dyn,
    img_spi: Dyn,
    img_wspi: Dyn,
    img_vsync: Dyn,
    marker: PhantomData<P>,
}

impl<P: PerfState> Clock<P> {
    /// Every rate that this clock holds.
    pub closed spec fn rates(self) -> Clocks {
        Clocks {
            xosc: self.xosc.0,
            rcosc: self.rcosc.0,
            rtc: self.rtc.0,
            scu: self.scu.0,
            hpadc: self.hpadc.0,
            lpadc: self.lpadc.0,
            syspll: self.syspll.0,
            sys: self.sys.0,
            sys_ahb: self.sys_ahb.0,
            sys_apb: self.sys_apb.0,
            sys_sfc: self.sys_sfc.0,
            com: self.com.0,
            pmui2c: self.pmui2c.0,
            gps_cpu: self.gps_cpu.0,
            gps_ahb: self.gps_ahb.0,
            appsmp: self.appsmp.0,
            usb: self.usb.0,
            sdio: self.sdio.0,
            img_uart: self.img_uart.0,
            img_spi: self.img_spi.0,
            img_wspi: self.img_wspi.0,
            img_vsync: self.img_vsync.0,
        }
    }

    /// The crystal oscillator.
    pub fn xosc(&self) -> (f: Fixed)
        ensures
            f.0 == self.rates().xosc,
    {
        self.xosc
    }

    /// The RC oscillator.
    pub fn rcosc(&self) -> (f: Fixed)
        ensures
            f.0 == self.rates().rcosc,
    {
        self.rcosc
    }

    /// The real-time clock.
    pub fn rtc(&self) -> (f: Fixed)
        ensures
            f.0 == self.rates().rtc,
    {
        self.rtc
    }

    /// The sensor control unit.
    pub fn scu(&self) -> (f: Fixed)
        ensures
            f.0 == self.rates().scu,
    {
        self.scu
    }

    /// The clock of the HPADC converter.
    pub fn hpadc(&self) -> (f: Fixed)
        ensures
            f.0 == self.rates().hpadc,
    {
        self.hpadc
    }

    /// The clock of the LPADC converter.
    pub fn lpadc(&self) -> (f: Fixed)
        ensures
            f.0 == self.rates().lpadc,
    {
        self.lpadc
    }

    /// Takes over the clock generator once the tree has been locked at `P`, with a sample that was
    /// taken after the lock, or hands on why it was not locked.
    pub fn lock<E>(crg: Crg, locked: Result<Clocks, E>) -> (r: Result<Self, E>)
        requires
            locked matches Ok(c) ==> c.signature() == Some(P::PERF),
        ensures
            match (locked, r) {
                (Ok(c), Ok(k)) => k.rates() == c,
                (Err(e), Err(f)) => f == e,
                _ => false,
            },
    {
        match locked {
            Ok(c) => Ok(Self::sample_all(crg, c)),
            Err(e) => Err(e),
        }
    }

    fn sample_all(crg: Crg, c: Clocks) -> (k: Self)
        ensures
            k.rates() == c,
    {
        Clock {
            crg,
            xosc: Fixed(c.xosc),
            rcosc: Fixed(c.rcosc),
            rtc: Fixed(c.rtc),
            scu: Fixed(c.scu),
            hpadc: Fixed(c.hpadc),
            lpadc: Fixed(c.lpadc),
            syspll: Dyn(c.syspll),
            sys: Dyn(c.sys),
            sys_ahb: Dyn(c.sys_ahb),
            sys_apb: Dyn(c.sys_apb),
            sys_sfc: Dyn(c.sys_sfc),
            com: Dyn(c.com),
            pmui2c: Dyn(c.pmui2c),
            gps_cpu: Dyn(c.gps_cpu),
            gps_ahb: Dyn(c.gps_ahb),
            appsmp: Dyn(c.appsmp),
            usb: Dyn(c.usb),
            sdio: Dyn(c.sdio),
            img_uart: Dyn(c.img_uart),
            img_spi: Dyn(c.img_spi),
            img_wspi: Dyn(c.img_wspi),
            img_vsync: Dyn(c.img_vsync),
            marker: PhantomData,
        }
    }

    /// Moves to the high operating point. `moved` is a sample that was taken after the tree moved,
    /// or why it did not. After a failure no operating point is known, so the clock is gone.
    pub fn into_hp<E>(self, moved: Result<Clocks, E>) -> (r: Result<Clock<Hp>, E>)
        requires
            moved matches Ok(c) ==> c.signature() == Some(Perf::Hp),
        ensures
            match (moved, r) {
                (Ok(c), Ok(k)) => k.rates() == self.rates().refreshed(c),
                (Err(e), Err(f)) => f == e,
                _ => false,
            },
    {
        self.transition::<Hp, E>(moved)
    }

    /// Moves to the low operating point: see [`Clock::into_hp`].
    pub fn into_lp<E>(self, moved: Result<Clocks, E>) -> (r: Result<Clock<Lp>, E>)
        requires
            moved matches Ok(c) ==> c.signature() == Some(Perf::Lp),
        ensures
            match (moved, r) {
                (Ok(c), Ok(k)) => k.rates() == self.rates().refreshed(c),
                (Err(e), Err(f)) => f == e,
                _ => false,
            },
    {
        self.transition::<Lp, E>(moved)
    }

    fn transition<Q: PerfState, E>(self, moved: Result<Clocks, E>) -> (r: Result<Clock<Q>, E>)
        requires
            moved matches Ok(c) ==> c.signature() == Some(Q::PERF),
        ensures
            match (moved, r) {
                (Ok(c), Ok(k)) => k.rates() == self.rates().refreshed(c),
                (Err(e), Err(f)) => f == e,
                _ => false,
            },
    {
        match moved {
            Ok(c) => {
                let mut clock = self.retype::<Q>();
                clock.resample_dyn(c);
                Ok(clock)
            },
            Err(e) => Err(e),
        }
    }

    fn retype<Q: PerfState>(self) -> (k: Clock<Q>)
        ensures
            k.rates() == self.rates(),
    {
        Clock {
            crg: self.crg,
            xosc: self.xosc,
            rcosc: self.rcosc,
            rtc: self.rtc,
            scu: self.scu,
            hpadc: self.hpadc,
            lpadc: self.lpadc,
            syspll: self.syspll,
            sys: self.sys,
            sys_ahb: self.sys_ahb,
            sys_apb: self.sys_apb,
            sys_sfc: self.sys_sfc,
            com: self.com,
            pmui2c: self.pmui2c,
            gps_cpu: self.gps_cpu,
            gps_ahb: self.gps_ahb,
            appsmp: self.appsmp,
            usb: self.usb,
            sdio: self.sdio,
            img_uart: self.img_uart,
            img_spi: self.img_spi,
            img_wspi: self.img_wspi,
            img_vsync: self.img_vsync,
            marker: PhantomData,
        }
    }

    /// Starts to set the divider of `id`. The change that comes back borrows the clock until it
    /// has been carried out, and its rates refreshed.
    pub fn set_gear(&mut self, id: PeripheralId, divisor: u32) -> (r: Result<
        GearChange<'_, P>,
        GearError,
    >)
        ensures
            match (id.spec_gear(divisor), r) {
                (Ok(q), Ok(g)) => g.request == q && *g.clock == *old(self) && *final(self)
                    == *final(g.clock),
                (Err(e), Err(f)) => f == e && *final(self) == *old(self),
                _ => false,
            },
    {
        match id.gear(divisor) {
            Ok(request) => Ok(GearChange { clock: self, request }),
            Err(e) => Err(e),
        }
    }

    /// Starts to set the divider of an SPI port so that its serial clock is at most `maxfreq`: see
    /// [`Clock::set_gear`].
    pub fn set_spi_gear(&mut self, port: PeripheralId, maxfreq: Hertz) -> (r: Result<
        GearChange<'_, P>,
        GearError,
    >)
        ensures
            match (port.spec_spi_gear(old(self).rates().appsmp, maxfreq), r) {
                (Ok(q), Ok(g)) => g.request == q && *g.clock == *old(self) && *final(self)
                    == *final(g.clock),
                (Err(e), Err(f)) => f == e && *final(self) == *old(self),
                _ => false,
            },
    {
        let appsmp = self.appsmp.hz();
        match port.spi_gear(appsmp, maxfreq) {
            Ok(request) => Ok(GearChange { clock: self, request }),
            Err(e) => Err(e),
        }
    }

    /// Replaces the rates that move with the operating point.
    fn resample_dyn(&mut self, c: Clocks)
        ensures
            final(self).rates() == old(self).rates().refreshed(c),
    {
        self.syspll = Dyn(c.syspll);
        self.sys = Dyn(c.sys);
        self.sys_ahb = Dyn(c.sys_ahb);
        self.sys_apb = Dyn(c.sys_apb);
        self.sys_sfc = Dyn(c.sys_sfc);
        self.com = Dyn(c.com);
        self.pmui2c = Dyn(c.pmui2c);
        self.gps_cpu = Dyn(c.gps_cpu);
        self.gps_ahb = Dyn(c.gps_ahb);
        self.appsmp = Dyn(c.appsmp);
        self.usb = Dyn(c.usb);
        self.sdio = Dyn(c.sdio);
        self.img_uart = Dyn(c.img_uart);
        self.img_spi = Dyn(c.img_spi);
        self.img_wspi = Dyn(c.img_wspi);
        self.img_vsync = Dyn(c.img_vsync);
    }

    /// Tells which operating point a fresh sample of the tree shows. That the tree is at a point
    /// does not say that it is held there.
    pub fn sampled_perf(&self, sample: &Clocks) -> (p: Option<Perf>)
        ensures
            p == sample.signature(),
    {
        sample.perf()
    }

    pub fn appsmp(&self) -> (d: &Dyn)
        ensures
            d.rate() == self.rates().appsmp,
    {
        &self.appsmp
    }

    pub fn usb(&self) -> (d: &Dyn)
        ensures
            d.rate() == self.rates().usb,
    {
        &self.usb
    }

    pub fn sdio(&self) -> (d: &Dyn)
        ensures
            d.rate() == self.rates().sdio,
    {
        &self.sdio
    }

    pub fn img_uart(&self) -> (d: &Dyn)
        ensures
            d.rate() == self.rates().img_uart,
    {
        &self.img_uart
    }

    pub fn img_spi(&self) -> (d: &Dyn)
        ensures
            d.rate() == self.rates().img_spi,
    {
        &self.img_spi
    }

    pub fn img_wspi(&self) -> (d: &Dyn)
        ensures
            d.rate() == self.rates().img_wspi,
    {
        &self.img_wspi
    }

    pub fn img_vsync(&self) -> (d: &Dyn)
        ensures
            d.rate() == self.rates().img_vsync,
    {
        &self.img_vsync
    }

    pub fn syspll(&self) -> (d: &Dyn)
        ensures
            d.rate() == self.rates().syspll,
    {
        &self.syspll
    }

    pub fn sys(&self) -> (d: &Dyn)
        ensures
            d.rate() == self.rates().sys,
    {
        &self.sys
    }

    pub fn sys_ahb(&self) -> (d: &Dyn)
        ensures
            d.rate() == self.rates().sys_ahb,
    {
        &self.sys_ahb
    }

    pub fn sys_apb(&self) -> (d: &Dyn)
        ensures
            d.rate() == self.rates().sys_apb,
    {
        &self.sys_apb
    }

    pub fn sys_sfc(&self) -> (d: &Dyn)
        ensures
            d.rate() == self.rates().sys_sfc,
    {
        &self.sys_sfc
    }

    pub fn com(&self) -> (d: &Dyn)
        ensures
            d.rate() == self.rates().com,
    {
        &self.com
    }

    pub fn pmui2c(&self) -> (d: &Dyn)
        ensures
            d.rate() == self.rates().pmui2c,
    {
        &self.pmui2c
    }

    pub fn gps_cpu(&self) -> (d: &Dyn)
        ensures
            d.rate() == self.rates().gps_cpu,
    {
        &self.gps_cpu
    }

    pub fn gps_ahb(&self) -> (d: &Dyn)
        ensures
            d.rate() == self.rates().gps_ahb,
    {
        &self.gps_ahb
    }
}

/// A divider change under way.
pub struct GearChange<'a, P: PerfState> {
    pub clock: &'a mut Clock<P>,
    pub request: GearRequest,
}

impl<'a, P: PerfState> GearChange<'a, P> {
    /// Ends the change with a sample that was taken after it, or with why it was refused.
    pub fn finish(self, applied: Result<Clocks, GearError>) -> (r: Result<(), GearError>)
        ensures
            match applied {
                Ok(c) => r is Ok && final(self.clock).rates() == old(
                    self.clock,
                ).rates().refreshed(c),
                Err(e) => r == Err::<(), GearError>(e) && *final(self.clock) == *old(self.clock),
            },
    {
        match applied {
            Ok(c) => {
                self.clock.resample_dyn(c);
                Ok(())
            },
            Err(e) => Err(e),
        }
    }
}

/// Going down and up again gives the rates of the last sample, except for the fixed ones, which
/// are still those of the first.
pub proof fn law_round_trip(start: Clocks, low: Clocks, high: Clocks)
    ensures
        start.refreshed(low).refreshed(high) == start.refreshed(high),
        start.refreshed(low).com == low.com,
        start.refreshed(low).xosc == start.xosc,
        start.refreshed(low).rcosc == start.rcosc,
        start.refreshed(low).rtc == start.rtc,
        start.refreshed(low).scu == start.scu,
        start.refreshed(low).hpadc == start.hpadc,
        start.refreshed(low).lpadc == start.lpadc,
{
}

/// A clock that was moved shows the operating point of its type, whatever it showed before.
pub proof fn law_marker_matches_rates(start: Clocks, moved: Clocks, perf: Perf)
    requires
        moved.signature() == Some(perf),
    ensures
        start.refreshed(moved).signature() == Some(perf),
{
}

} // verus!
