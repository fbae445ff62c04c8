//! Clock changes that no registered peripheral notices.
//!
//! A change of the shared clock ([`crate::clocks::shared`]) leaves the divisor of every peripheral
//! at its old base clock, and garbles what is in flight. [`RegistryPerf`] owns the right to change
//! the clock, and brackets each change: every registered sink is quiesced first, then the clock is
//! changed, then every sink is reconfigured. If a sink cannot be quiesced, the clock is left alone.
//!
//! A sink ([`UartSink`], [`SpiSink`], [`DelaySink`]) keeps a driver together with what is needed to
//! reconfigure it. Whoever shares a sink between contexts guards it.

use vstd::prelude::*;

use crate::clocks::shared::{Change, ClockRef, PerfControl};
use crate::clocks::{Clocks, GearError, GearRequest, Perf, PeripheralId};
use crate::units::Hertz;

verus! {

/// Why a serial port could not be set up, as its driver numbers the reasons.
#[derive(Clone, Copy, Debug, PartialEq, Eq, Structural)]
pub struct UartError(pub u32);

/// Why an SPI bus could not be quiesced or set up, as its driver numbers the reasons.
#[derive(Clone, Copy, Debug, PartialEq, Eq, Structural)]
pub struct SpiError(pub u32);

/// Why the operating point did not change, as power management numbers the reasons.
#[derive(Clone, Copy, Debug, PartialEq, Eq, Structural)]
pub struct PmError(pub u32);

/// Why a sink failed.
#[derive(Clone, Copy, Debug, PartialEq, Eq, Structural)]
pub enum SinkError {
    Uart(UartError),
    Spi(SpiError),
}

/// Why a bracketed change failed.
#[derive(Clone, Copy, Debug, PartialEq, Eq, Structural)]
pub enum Error {
    /// The operating point did not change. No sink was reconfigured.
    Perf(PmError),
    /// The divider did not change. No sink was reconfigured.
    Gear(GearError),
    /// A sink could not be quiesced before the change, or reconfigured after it.
    Sink(SinkError),
}

/// A peripheral that can be bracketed.
pub trait ClockSink {
    /// Lets what is in flight finish. A failure keeps the clock from being changed.
    fn quiesce(&mut self) -> Result<(), SinkError>;

    /// Sets the peripheral up for the rates of `clock`.
    fn reconfigure(&mut self, clock: &ClockRef) -> Result<(), SinkError>;
}

/// A serial port.
pub trait UartDriver: Sized {
    type Config;

    /// Waits until everything is sent.
    fn flush(&mut self);

    /// Computes the divisor anew.
    fn reconfigure(&mut self, config: &Self::Config, clock: &ClockRef) -> Result<(), UartError>;
}

/// An SPI bus.
pub trait SpiDriver: Sized {
    type Config;

    /// Waits until the bus is idle.
    fn flush(&mut self) -> Result<(), SpiError>;

    /// Computes the divisor anew.
    fn reconfigure(&mut self, config: &Self::Config, clock: &ClockRef) -> Result<(), SpiError>;
}

/// A delay that counts core clocks.
pub trait DelayDriver: Sized {
    /// The delay, built anew on the timer that it had.
    fn rebuilt(self, clock: &ClockRef) -> Self;
}

/// A serial port that is registered, with its configuration.
pub struct UartSink<U: UartDriver> {
    slot: Option<(U, U::Config)>,
}

impl<U: UartDriver> UartSink<U> {
    /// What is installed.
    pub closed spec fn installed(self) -> Option<(U, U::Config)> {
        self.slot
    }

    /// A sink with nothing installed.
    pub fn new() -> (s: UartSink<U>)
        ensures
            s.installed() is None,
    {
        UartSink { slot: None }
    }

    /// Installs a port, in place of the one that is there.
    pub fn install(&mut self, uart: U, config: U::Config)
        ensures
            final(self).installed() == Some((uart, config)),
    {
        self.slot = Some((uart, config));
    }

    /// Runs `f` on the port, if one is installed.
    pub fn with<R, F: FnOnce(&mut U) -> R>(&mut self, f: F) -> (r: Option<R>)
        requires
            forall|u: &mut U| #[trigger] call_requires(f, (u,)),
        ensures
            match old(self).installed() {
                Some((before, config)) => {
                    &&& r is Some
                    &&& final(self).installed() matches Some((after, c))
                    &&& c == config
                    &&& exists|u: &mut U| #[trigger]
                        call_ensures(f, (u,), r->0) && *u == before && *final(u) == after
                },
                None => r is None && final(self).installed() is None,
            },
    {
        match self.slot.take() {
            Some((mut u, config)) => {
                let ghost before = u;
                let value = f(&mut u);
                let r = Some(value);
                assert(r->0 == value);
                assert(exists|x: &mut U| #[trigger]
                    call_ensures(f, (x,), r->0) && *x == before && *final(x) == u);
                self.slot = Some((u, config));
                r
            },
            None => None,
        }
    }
}

impl<U: UartDriver> Default for UartSink<U> {
    fn default() -> (s: UartSink<U>)
        ensures
            s.installed() is None,
    {
        UartSink::new()
    }
}

impl<U: UartDriver> ClockSink for UartSink<U> {
    /// A port always becomes quiet.
    fn quiesce(&mut self) -> (r: Result<(), SinkError>)
        ensures
            r is Ok,
            match old(self).installed() {
                Some((before, config)) => {
                    &&& final(self).installed() matches Some((after, c))
                    &&& c == config
                    &&& exists|x: &mut U| #[trigger]
                        call_ensures(U::flush, (x,), ()) && *x == before && *final(x) == after
                },
                None => final(self).installed() is None,
            },
    {
        if let Some((mut u, config)) = self.slot.take() {
            let ghost before = u;
            u.flush();
            assert(exists|x: &mut U| #[trigger]
                call_ensures(U::flush, (x,), ()) && *x == before && *final(x) == u);
            self.slot = Some((u, config));
        }
        Ok(())
    }

    fn reconfigure(&mut self, clock: &ClockRef) -> (r: Result<(), SinkError>)
        ensures
            match old(self).installed() {
                Some((before, config)) => {
                    &&& final(self).installed() matches Some((after, c))
                    &&& c == config
                    &&& exists|x: &mut U, res: Result<(), UartError>| #[trigger]
                        call_ensures(U::reconfigure, (x, &config, clock), res) && *x == before
                            && *final(x) == after && r == match res {
                            Ok(_) => Ok::<(), SinkError>(()),
                            Err(e) => Err(SinkError::Uart(e)),
                        }
                },
                None => r is Ok && final(self).installed() is None,
            },
    {
        match self.slot.take() {
            Some((mut u, config)) => {
                let ghost before = u;
                let res = u.reconfigure(&config, clock);
                assert(exists|x: &mut U| #[trigger]
                    call_ensures(U::reconfigure, (x, &config, clock), res) && *x == before
                        && *final(x) == u);
                self.slot = Some((u, config));
                match res {
                    Ok(_) => Ok(()),
                    Err(e) => Err(SinkError::Uart(e)),
                }
            },
            None => Ok(()),
        }
    }
}

/// An SPI bus that is registered, with its configuration.
pub struct SpiSink<S: SpiDriver> {
    slot: Option<(S, S::Config)>,
}

impl<S: SpiDriver> SpiSink<S> {
    /// What is installed.
    pub closed spec fn installed(self) -> Option<(S, S::Config)> {
        self.slot
    }

    /// A sink with nothing installed.
    pub fn new() -> (s: SpiSink<S>)
        ensures
            s.installed() is None,
    {
        SpiSink { slot: None }
    }

    /// Installs a bus, in place of the one that is there.
    pub fn install(&mut self, spi: S, config: S::Config)
        ensures
            final(self).installed() == Some((spi, config)),
    {
        self.slot = Some((spi, config));
    }

    /// Runs `f` on the bus, if one is installed.
    pub fn with<R, F: FnOnce(&mut S) -> R>(&mut self, f: F) -> (r: Option<R>)
        requires
            forall|u: &mut S| #[trigger] call_requires(f, (u,)),
        ensures
            match old(self).installed() {
                Some((before, config)) => {
                    &&& r is Some
                    &&& final(self).installed() matches Some((after, c))
                    &&& c == config
                    &&& exists|u: &mut S| #[trigger]
                        call_ensures(f, (u,), r->0) && *u == before && *final(u) == after
                },
                None => r is None && final(self).installed() is None,
            },
    {
        match self.slot.take() {
            Some((mut u, config)) => {
                let ghost before = u;
                let value = f(&mut u);
                let r = Some(value);
                assert(r->0 == value);
                assert(exists|x: &mut S| #[trigger]
                    call_ensures(f, (x,), r->0) && *x == before && *final(x) == u);
                self.slot = Some((u, config));
                r
            },
            None => None,
        }
    }
}

impl<S: SpiDriver> Default for SpiSink<S> {
    fn default() -> (s: SpiSink<S>)
        ensures
            s.installed() is None,
    {
        SpiSink::new()
    }
}

impl<S: SpiDriver> ClockSink for SpiSink<S> {
    fn quiesce(&mut self) -> (r: Result<(), SinkError>)
        ensures
            match old(self).installed() {
                Some((before, config)) => {
                    &&& final(self).installed() matches Some((after, c))
                    &&& c == config
                    &&& exists|x: &mut S, res: Result<(), SpiError>| #[trigger]
                        call_ensures(S::flush, (x,), res) && *x == before && *final(x) == after
                            && r == match res {
                            Ok(_) => Ok::<(), SinkError>(()),
                            Err(e) => Err(SinkError::Spi(e)),
                        }
                },
                None => r is Ok && final(self).installed() is None,
            },
    {
        match self.slot.take() {
            Some((mut s, config)) => {
                let ghost before = s;
                let res = s.flush();
                assert(exists|x: &mut S| #[trigger]
                    call_ensures(S::flush, (x,), res) && *x == before && *final(x) == s);
                self.slot = Some((s, config));
                match res {
                    Ok(_) => Ok(()),
                    Err(e) => Err(SinkError::Spi(e)),
                }
            },
            None => Ok(()),
        }
    }

    fn reconfigure(&mut self, clock: &ClockRef) -> (r: Result<(), SinkError>)
        ensures
            match old(self).installed() {
                Some((before, config)) => {
                    &&& final(self).installed() matches Some((after, c))
                    &&& c == config
                    &&& exists|x: &mut S, res: Result<(), SpiError>| #[trigger]
                        call_ensures(S::reconfigure, (x, &config, clock), res) && *x == before
                            && *final(x) == after && r == match res {
                            Ok(_) => Ok::<(), SinkError>(()),
                            Err(e) => Err(SinkError::Spi(e)),
                        }
                },
                None => r is Ok && final(self).installed() is None,
            },
    {
        match self.slot.take() {
            Some((mut s, config)) => {
                let ghost before = s;
                let res = s.reconfigure(&config, clock);
                assert(exists|x: &mut S| #[trigger]
                    call_ensures(S::reconfigure, (x, &config, clock), res) && *x == before
                        && *final(x) == s);
                self.slot = Some((s, config));
                match res {
                    Ok(_) => Ok(()),
                    Err(e) => Err(SinkError::Spi(e)),
                }
            },
            None => Ok(()),
        }
    }
}

/// A delay that is registered. It counts the clock of the core that it was built on, so it has to be
/// used and reconfigured there.
pub struct DelaySink<D: DelayDriver> {
    slot: Option<D>,
}

impl<D: DelayDriver> DelaySink<D> {
    /// What is installed.
    pub closed spec fn installed(self) -> Option<D> {
        self.slot
    }

    /// A sink with nothing installed.
    pub fn new() -> (s: DelaySink<D>)
        ensures
            s.installed() is None,
    {
        DelaySink { slot: None }
    }

    /// Installs a delay, in place of the one that is there.
    pub fn install(&mut self, delay: D)
        ensures
            final(self).installed() == Some(delay),
    {
        self.slot = Some(delay);
    }

    /// Runs `f` on the delay, if one is installed.
    pub fn with<R, F: FnOnce(&mut D) -> R>(&mut self, f: F) -> (r: Option<R>)
        requires
            forall|u: &mut D| #[trigger] call_requires(f, (u,)),
        ensures
            match old(self).installed() {
                Some(before) => {
                    &&& r is Some
                    &&& final(self).installed() matches Some(after)
                    &&& exists|u: &mut D| #[trigger]
                        call_ensures(f, (u,), r->0) && *u == before && *final(u) == after
                },
                None => r is None && final(self).installed() is None,
            },
    {
        match self.slot.take() {
            Some(mut u) => {
                let ghost before = u;
                let value = f(&mut u);
                let r = Some(value);
                assert(r->0 == value);
                assert(exists|x: &mut D| #[trigger]
                    call_ensures(f, (x,), r->0) && *x == before && *final(x) == u);
                self.slot = Some(u);
                r
            },
            None => None,
        }
    }
}

impl<D: DelayDriver> Default for DelaySink<D> {
    fn default() -> (s: DelaySink<D>)
        ensures
            s.installed() is None,
    {
        DelaySink::new()
    }
}

impl<D: DelayDriver> ClockSink for DelaySink<D> {
    /// A delay has nothing in flight.
    fn quiesce(&mut self) -> (r: Result<(), SinkError>)
        ensures
            r is Ok,
            *final(self) == *old(self),
    {
        Ok(())
    }

    /// A delay has no way to change its rate: it is built anew.
    fn reconfigure(&mut self, clock: &ClockRef) -> (r: Result<(), SinkError>)
        ensures
            r is Ok,
            match old(self).installed() {
                Some(before) => final(self).installed() matches Some(after) && call_ensures(
                    D::rebuilt,
                    (before, clock),
                    after,
                ),
                None => final(self).installed() is None,
            },
    {
        if let Some(d) = self.slot.take() {
            self.slot = Some(d.rebuilt(clock));
        }
        Ok(())
    }
}

/// Why the clock was not changed.
#[derive(Clone, Copy, Debug, PartialEq, Eq, Structural)]
pub enum ChangeError {
    /// The operating point did not move.
    Perf(PmError),
    /// The divider was not set.
    Gear(GearError),
}

impl ChangeError {
    /// The error that a bracketed change ends with.
    pub open spec fn reported(self) -> Error {
        match self {
            ChangeError::Perf(e) => Error::Perf(e),
            ChangeError::Gear(e) => Error::Gear(e),
        }
    }

    /// The error that a bracketed change ends with.
    pub fn report(self) -> (e: Error)
        ensures
            e == self.reported(),
    {
        match self {
            ChangeError::Perf(e) => Error::Perf(e),
            ChangeError::Gear(e) => Error::Gear(e),
        }
    }
}

/// What a bracketed change is to do.
#[derive(Clone, Copy, Debug, PartialEq, Eq, Structural)]
pub enum Operation {
    Perf(Perf),
    Gear { id: PeripheralId, divisor: u32 },
    SpiGear { port: PeripheralId, maxfreq: Hertz },
}

/// What a bracketed change asks for next.
#[derive(Clone, Copy, Debug, PartialEq, Eq, Structural)]
pub enum BracketAction {
    /// Quiesce this sink: [`Bracket::quiesced`].
    Quiesce(usize),
    /// Change the clock, and sample it: [`Bracket::changed`].
    Change(Change),
    /// Reconfigure this sink: [`Bracket::reconfigured`].
    Reconfigure(usize),
}

/// Where a bracketed change stands.
#[derive(Clone, Copy, Debug)]
pub enum BracketPhase {
    Quiescing(usize),
    Changing(Change),
    Reconfiguring(usize),
    Finished(Result<(), Error>),
}

/// What a phase asks for.
pub open spec fn wanted(phase: BracketPhase) -> Option<BracketAction> {
    match phase {
        BracketPhase::Quiescing(i) => Some(BracketAction::Quiesce(i)),
        BracketPhase::Changing(c) => Some(BracketAction::Change(c)),
        BracketPhase::Reconfiguring(i) => Some(BracketAction::Reconfigure(i)),
        BracketPhase::Finished(_) => None,
    }
}

/// The change of the clock that an operation comes to, or why there is none.
pub open spec fn planned(op: Operation, clock: ClockRef) -> BracketPhase {
    match op {
        Operation::Perf(perf) => BracketPhase::Changing(Change::Perf(perf)),
        Operation::Gear { id, divisor } => match id.spec_gear(divisor) {
            Ok(q) => BracketPhase::Changing(Change::Gear(q)),
            Err(e) => BracketPhase::Finished(Err(Error::Gear(e))),
        },
        Operation::SpiGear { port, maxfreq } => match port.spec_spi_gear(
            clock.rates().appsmp,
            maxfreq,
        ) {
            Ok(q) => BracketPhase::Changing(Change::Gear(q)),
            Err(e) => BracketPhase::Finished(Err(Error::Gear(e))),
        },
    }
}

/// The phase once sinks 0 to `i` - 1 of `n` are quiet.
pub open spec fn quiesced_to(i: int, n: usize, op: Operation, clock: ClockRef) -> BracketPhase {
    if i < n {
        BracketPhase::Quiescing(i as usize)
    } else {
        planned(op, clock)
    }
}

/// The phase once sinks 0 to `i` - 1 of `n` are reconfigured.
pub open spec fn reconfigured_to(i: int, n: usize) -> BracketPhase {
    if i < n {
        BracketPhase::Reconfiguring(i as usize)
    } else {
        BracketPhase::Finished(Ok(()))
    }
}

/// The phase after the outcome of the change of the clock.
pub open spec fn changed_to(phase: BracketPhase, n: usize, outcome: Result<Clocks, ChangeError>) ->
    BracketPhase {
    match (phase, outcome) {
        (BracketPhase::Changing(_), Ok(_)) => reconfigured_to(0, n),
        (BracketPhase::Changing(_), Err(e)) => BracketPhase::Finished(Err(e.reported())),
        _ => phase,
    }
}

/// The only owner of the right to change the clock, for `N` registered sinks.
pub struct RegistryPerf<const N: usize> {
    inner: PerfControl,
}

impl<const N: usize> RegistryPerf<N> {
    /// The shared clock.
    pub closed spec fn clock_view(self) -> ClockRef {
        self.inner.clock_view()
    }

    /// Takes over the right to change the clock. There are `N` sinks, numbered from 0.
    pub fn new(perf: PerfControl) -> (r: RegistryPerf<N>)
        ensures
            r.clock_view() == perf.clock_view(),
    {
        RegistryPerf { inner: perf }
    }

    /// The shared clock as it stands.
    pub fn clock(&self) -> (r: &ClockRef)
        ensures
            *r == self.clock_view(),
    {
        self.inner.clock()
    }

    fn plan(&self, op: Operation) -> (p: BracketPhase)
        ensures
            p == planned(op, self.clock_view()),
    {
        let change = match op {
            Operation::Perf(perf) => Ok(self.inner.request_perf(perf)),
            Operation::Gear { id, divisor } => self.inner.set_gear(id, divisor),
            Operation::SpiGear { port, maxfreq } => self.inner.set_spi_gear(port, maxfreq),
        };
        match change {
            Ok(c) => BracketPhase::Changing(c),
            Err(e) => BracketPhase::Finished(Err(Error::Gear(e))),
        }
    }

    fn bracket(&mut self, op: Operation) -> (b: Bracket<'_, N>)
        ensures
            b.op == op,
            b.phase == quiesced_to(0, N, op, old(self).clock_view()),
            *b.registry == *old(self),
            *final(self) == *final(b.registry),
    {
        let phase = if N > 0 {
            BracketPhase::Quiescing(0)
        } else {
            self.plan(op)
        };
        Bracket { registry: self, op, phase }
    }

    /// Starts to change the operating point.
    pub fn request_perf(&mut self, perf: Perf) -> (b: Bracket<'_, N>)
        ensures
            b.op == Operation::Perf(perf),
            b.phase == quiesced_to(0, N, Operation::Perf(perf), old(self).clock_view()),
            *b.registry == *old(self),
            *final(self) == *final(b.registry),
    {
        self.bracket(Operation::Perf(perf))
    }

    /// Starts to set the divider of `id`.
    pub fn set_gear(&mut self, id: PeripheralId, divisor: u32) -> (b: Bracket<'_, N>)
        ensures
            b.op == (Operation::Gear { id, divisor }),
            b.phase == quiesced_to(0, N, Operation::Gear { id, divisor }, old(self).clock_view()),
            *b.registry == *old(self),
            *final(self) == *final(b.registry),
    {
        self.bracket(Operation::Gear { id, divisor })
    }

    /// Starts to set the divider of an SPI port so that its serial clock is at most `maxfreq`.
    pub fn set_spi_gear(&mut self, port: PeripheralId, maxfreq: Hertz) -> (b: Bracket<'_, N>)
        ensures
            b.op == (Operation::SpiGear { port, maxfreq }),
            b.phase == quiesced_to(
                0,
                N,
                Operation::SpiGear { port, maxfreq },
                old(self).clock_view(),
            ),
            *b.registry == *old(self),
            *final(self) == *final(b.registry),
    {
        self.bracket(Operation::SpiGear { port, maxfreq })
    }
}

/// A bracketed change under way.
pub struct Bracket<'a, const N: usize> {
    pub registry: &'a mut RegistryPerf<N>,
    pub op: Operation,
    pub phase: BracketPhase,
}

impl<'a, const N: usize> Bracket<'a, N> {
    /// What to do next, or `None` once the change is over.
    pub fn action(&self) -> (a: Option<BracketAction>)
        ensures
            a == wanted(self.phase),
    {
        match self.phase {
            BracketPhase::Quiescing(i) => Some(BracketAction::Quiesce(i)),
            BracketPhase::Changing(c) => Some(BracketAction::Change(c)),
            BracketPhase::Reconfiguring(i) => Some(BracketAction::Reconfigure(i)),
            BracketPhase::Finished(_) => None,
        }
    }

    /// Goes on after a sink was quiesced, or was not.
    pub fn quiesced(&mut self, outcome: Result<(), SinkError>)
        ensures
            final(self).op == old(self).op,
            final(self).registry == old(self).registry,
            final(self).phase == match (old(self).phase, outcome) {
                (BracketPhase::Quiescing(i), Ok(_)) => quiesced_to(
                    i + 1,
                    N,
                    old(self).op,
                    old(self).registry.clock_view(),
                ),
                (BracketPhase::Quiescing(_), Err(e)) => BracketPhase::Finished(
                    Err(Error::Sink(e)),
                ),
                _ => old(self).phase,
            },
    {
        if let BracketPhase::Quiescing(i) = self.phase {
            self.phase = match outcome {
                Ok(_) => if i < N && i + 1 < N {
                    BracketPhase::Quiescing(i + 1)
                } else {
                    self.registry.plan(self.op)
                },
                Err(e) => BracketPhase::Finished(Err(Error::Sink(e))),
            };
        }
    }

    /// Goes on after the clock was changed, with a sample that was taken after that, or was not.
    pub fn changed(&mut self, outcome: Result<Clocks, ChangeError>)
        ensures
            final(self).op == old(self).op,
            final(self).phase == changed_to(old(self).phase, N, outcome),
            *final(final(self).registry) == *final(old(self).registry),
            match (old(self).phase, outcome) {
                (BracketPhase::Changing(_), Ok(c)) => {
                    &&& final(self).registry.clock_view().rates() == old(
                        self,
                    ).registry.clock_view().rates().refreshed(c)
                    &&& final(self).registry.clock_view().epoch() == if old(
                        self,
                    ).registry.clock_view().epoch() == u32::MAX {
                        0
                    } else {
                        old(self).registry.clock_view().epoch() + 1
                    }
                },
                _ => *final(self).registry == *old(self).registry,
            },
    {
        if let BracketPhase::Changing(_) = self.phase {
            self.phase = match self.registry.inner.complete(outcome) {
                Ok(_) => if N > 0 {
                    BracketPhase::Reconfiguring(0)
                } else {
                    BracketPhase::Finished(Ok(()))
                },
                Err(e) => BracketPhase::Finished(Err(e.report())),
            };
        }
    }

    /// Goes on after a sink was reconfigured, or was not.
    pub fn reconfigured(&mut self, outcome: Result<(), SinkError>)
        ensures
            final(self).op == old(self).op,
            final(self).registry == old(self).registry,
            final(self).phase == match (old(self).phase, outcome) {
                (BracketPhase::Reconfiguring(i), Ok(_)) => reconfigured_to(i + 1, N),
                (BracketPhase::Reconfiguring(_), Err(e)) => BracketPhase::Finished(
                    Err(Error::Sink(e)),
                ),
                _ => old(self).phase,
            },
    {
        if let BracketPhase::Reconfiguring(i) = self.phase {
            self.phase = match outcome {
                Ok(_) => if i < N && i + 1 < N {
                    BracketPhase::Reconfiguring(i + 1)
                } else {
                    BracketPhase::Finished(Ok(()))
                },
                Err(e) => BracketPhase::Finished(Err(Error::Sink(e))),
            };
        }
    }

    /// The shared clock as it stands, for the sinks to be reconfigured to.
    pub fn clock(&self) -> (r: &ClockRef)
        ensures
            *r == old(self.registry).clock_view(),
    {
        self.registry.clock()
    }

    /// How the change ended, or `None` while it runs.
    pub fn outcome(&self) -> (r: Option<Result<(), Error>>)
        ensures
            r == match self.phase {
                BracketPhase::Finished(res) => Some(res),
                _ => None,
            },
    {
        match self.phase {
            BracketPhase::Finished(res) => Some(res),
            _ => None,
        }
    }
}

/// What a sink did during a bracketed change.
pub enum BracketEvent {
    Quiesced(Result<(), SinkError>),
    Changed(Result<Clocks, ChangeError>),
    Reconfigured(Result<(), SinkError>),
}

/// The phase after an event.
pub open spec fn phase_after(
    phase: BracketPhase,
    n: usize,
    op: Operation,
    clock: ClockRef,
    e: BracketEvent,
) -> BracketPhase {
    match (phase, e) {
        (BracketPhase::Quiescing(i), BracketEvent::Quiesced(Ok(_))) => quiesced_to(
            i + 1,
            n,
            op,
            clock,
        ),
        (BracketPhase::Quiescing(_), BracketEvent::Quiesced(Err(e))) => BracketPhase::Finished(
            Err(Error::Sink(e)),
        ),
        (BracketPhase::Changing(_), BracketEvent::Changed(outcome)) => changed_to(phase, n, outcome),
        (BracketPhase::Reconfiguring(i), BracketEvent::Reconfigured(Ok(_))) => reconfigured_to(
            i + 1,
            n,
        ),
        (BracketPhase::Reconfiguring(_), BracketEvent::Reconfigured(Err(e))) => {
            BracketPhase::Finished(Err(Error::Sink(e)))
        },
        _ => phase,
    }
}

/// The phase after each of `events` in turn.
pub open spec fn phase_run(n: usize, op: Operation, clock: ClockRef, events: Seq<BracketEvent>) ->
    BracketPhase
    decreases events.len(),
{
    if events.len() == 0 {
        quiesced_to(0, n, op, clock)
    } else {
        phase_after(phase_run(n, op, clock, events.drop_last()), n, op, clock, events.last())
    }
}

/// Whether an event is the success of what a phase asks for.
pub open spec fn succeeds(phase: BracketPhase, e: BracketEvent) -> bool {
    match phase {
        BracketPhase::Quiescing(_) => e matches BracketEvent::Quiesced(Ok(_)),
        BracketPhase::Changing(_) => e matches BracketEvent::Changed(Ok(_)),
        BracketPhase::Reconfiguring(_) => e matches BracketEvent::Reconfigured(Ok(_)),
        BracketPhase::Finished(_) => false,
    }
}

/// What was done during `events`, in order.
pub open spec fn done(n: usize, op: Operation, clock: ClockRef, events: Seq<BracketEvent>) -> Seq<
    BracketAction,
>
    decreases events.len(),
{
    if events.len() == 0 {
        Seq::empty()
    } else {
        let before = done(n, op, clock, events.drop_last());
        let phase = phase_run(n, op, clock, events.drop_last());
        if succeeds(phase, events.last()) {
            before.push(wanted(phase)->0)
        } else {
            before
        }
    }
}

/// What a change is to do, in order: quiesce every sink, change the clock, and reconfigure every
/// sink. A change that is refused stops after the first part.
pub open spec fn steps(n: usize, op: Operation, clock: ClockRef) -> Seq<BracketAction> {
    let quiet = Seq::new(n as nat, |i: int| BracketAction::Quiesce(i as usize));
    match planned(op, clock) {
        BracketPhase::Changing(c) => quiet.push(BracketAction::Change(c)) + Seq::new(
            n as nat,
            |i: int| BracketAction::Reconfigure(i as usize),
        ),
        _ => quiet,
    }
}

/// A change does its steps in order, each once, and asks for the next one until it is over. It
/// succeeds exactly when it has done all of them; a change that is refused ends with the reason
/// when every sink is quiet. So a sink that cannot be quiesced keeps the clock as it is, and a
/// change that fails leaves the sinks as they are.
pub proof fn law_bracket_order(
    n: usize,
    op: Operation,
    clock: ClockRef,
    events: Seq<BracketEvent>,
)
    ensures
        ({
            let phase = phase_run(n, op, clock, events);
            let so_far = done(n, op, clock, events);
            let all = steps(n, op, clock);
            &&& so_far.len() <= all.len()
            &&& so_far == all.take(so_far.len() as int)
            &&& wanted(phase) matches Some(a) ==> so_far.len() < all.len() && a
                == all[so_far.len() as int]
            &&& phase == BracketPhase::Finished(Ok::<(), Error>(())) <==> (so_far == all
                && planned(op, clock) is Changing)
            &&& so_far == all && planned(op, clock) is Finished ==> phase == planned(op, clock)
        }),
{
    lemma_bracket_position(n, op, clock, events);
    let phase = phase_run(n, op, clock, events);
    let so_far = done(n, op, clock, events);
    let all = steps(n, op, clock);
    assert(all.take(all.len() as int) =~= all);
    if let Some(a) = wanted(phase) {
        assert(so_far.len() < all.len());
        assert(a == all[so_far.len() as int]);
    }
    if let BracketPhase::Finished(Ok(unit)) = phase {
        assert(unit == ());
    }
}

proof fn lemma_bracket_position(
    n: usize,
    op: Operation,
    clock: ClockRef,
    events: Seq<BracketEvent>,
)
    ensures
        ({
            let phase = phase_run(n, op, clock, events);
            let so_far = done(n, op, clock, events);
            let all = steps(n, op, clock);
            let plan = planned(op, clock);
            &&& so_far.len() <= all.len()
            &&& so_far == all.take(so_far.len() as int)
            &&& match phase {
                BracketPhase::Quiescing(i) => i < n && so_far.len() == i,
                BracketPhase::Changing(c) => phase == plan && so_far.len() == n,
                BracketPhase::Reconfiguring(i) => plan is Changing && i < n && so_far.len() == n + 1
                    + i,
                BracketPhase::Finished(Ok(_)) => plan is Changing && so_far.len() == all.len(),
                BracketPhase::Finished(Err(_)) => so_far.len() < all.len() || phase == plan,
            }
        }),
    decreases events.len(),
{
    let all = steps(n, op, clock);
    if events.len() == 0 {
        assert(all.take(0) =~= Seq::<BracketAction>::empty());
    } else {
        let before = events.drop_last();
        lemma_bracket_position(n, op, clock, before);
        let phase = phase_run(n, op, clock, before);
        let so_far = done(n, op, clock, before);
        if succeeds(phase, events.last()) {
            assert(so_far.len() < all.len());
            assert(wanted(phase)->0 == all[so_far.len() as int]);
            assert(so_far.push(wanted(phase)->0) =~= all.take(so_far.len() as int + 1));
        }
    }
}

/// A sink that cannot be quiesced ends the change with its error, and a change of the clock that
/// fails ends it with that error; nothing that comes later changes that.
pub proof fn law_failure_is_final(
    phase: BracketPhase,
    n: usize,
    op: Operation,
    clock: ClockRef,
    e: BracketEvent,
)
    ensures
        (phase is Quiescing && e matches BracketEvent::Quiesced(Err(f))) ==> phase_after(
            phase,
            n,
            op,
            clock,
            e,
        ) == BracketPhase::Finished(Err::<(), Error>(Error::Sink(e->Quiesced_0->Err_0))),
        (phase is Changing && e matches BracketEvent::Changed(Err(f))) ==> phase_after(
            phase,
            n,
            op,
            clock,
            e,
        ) == BracketPhase::Finished(Err::<(), Error>(e->Changed_0->Err_0.reported())),
        phase is Finished ==> phase_after(phase, n, op, clock, e) == phase,
{
}

/// The phase of a change whose first `k` sinks were quiesced, one after the other.
proof fn lemma_quiesced(n: usize, op: Operation, clock: ClockRef, k: nat)
    requires
        k <= n,
    ensures
        phase_run(
            n,
            op,
            clock,
            Seq::new(k, |i: int| BracketEvent::Quiesced(Ok::<(), SinkError>(()))),
        ) == quiesced_to(k as int, n, op, clock),
    decreases k,
{
    if k > 0 {
        let events = Seq::new(k, |i: int| BracketEvent::Quiesced(Ok::<(), SinkError>(())));
        lemma_quiesced(n, op, clock, (k - 1) as nat);
        assert(events.drop_last() =~= Seq::new(
            (k - 1) as nat,
            |i: int| BracketEvent::Quiesced(Ok::<(), SinkError>(())),
        ));
    }
}

/// Once its `n` sinks are quiet, a bracketed change asks for what it was asked: the operating point
/// that was named; the divider that was named, with exactly the divisor that was named, if that is
/// from 1 to the largest that the divider takes; or the limit that was named, at the application
/// clock as it stands. What a divider does not take is refused, and the clock is left alone.
pub proof fn law_change_is_the_one_asked_for(
    n: usize,
    clock: ClockRef,
    perf: Perf,
    id: PeripheralId,
    divisor: u32,
    maxfreq: Hertz,
)
    ensures
        ({
            let quiet = Seq::new(n as nat, |i: int| BracketEvent::Quiesced(Ok::<(), SinkError>(())));
            let largest: int = match id {
                PeripheralId::ImgUart | PeripheralId::Spi4 => 127,
                PeripheralId::Spi5 => 15,
                PeripheralId::Usb | PeripheralId::Sdio => 3,
                PeripheralId::Ungeared => 0,
            };
            &&& wanted(phase_run(n, Operation::Perf(perf), clock, quiet)) == Some(
                BracketAction::Change(Change::Perf(perf)),
            )
            &&& if 1 <= divisor <= largest {
                wanted(phase_run(n, Operation::Gear { id, divisor }, clock, quiet)) == Some(
                    BracketAction::Change(Change::Gear(GearRequest::Divide { id, divisor })),
                )
            } else {
                phase_run(n, Operation::Gear { id, divisor }, clock, quiet)
                    == BracketPhase::Finished(
                    Err::<(), Error>(
                        Error::Gear(
                            if id == PeripheralId::Ungeared {
                                GearError::Unsupported
                            } else {
                                GearError::OutOfRange
                            },
                        ),
                    ),
                )
            }
            &&& if id == PeripheralId::Spi4 || id == PeripheralId::Spi5 {
                wanted(phase_run(n, Operation::SpiGear { port: id, maxfreq }, clock, quiet)) == Some(
                    BracketAction::Change(
                        Change::Gear(
                            GearRequest::SpiLimit {
                                port: id,
                                appsmp: clock.rates().appsmp,
                                maxfreq,
                            },
                        ),
                    ),
                )
            } else {
                phase_run(n, Operation::SpiGear { port: id, maxfreq }, clock, quiet)
                    == BracketPhase::Finished(
                    Err::<(), Error>(Error::Gear(GearError::Unsupported)),
                )
            }
        }),
{
    lemma_quiesced(n, Operation::Perf(perf), clock, n as nat);
    lemma_quiesced(n, Operation::Gear { id, divisor }, clock, n as nat);
    lemma_quiesced(n, Operation::SpiGear { port: id, maxfreq }, clock, n as nat);
}

/// A bracketed change goes through its sinks one by one: sink `i` is quiesced or reconfigured
/// before sink `i` + 1, a change of the clock that succeeds is followed by sink 0 or, without
/// sinks, by success, and each failure ends the change with the error of what failed.
pub proof fn law_bracket_goes_sink_by_sink(
    n: usize,
    op: Operation,
    clock: ClockRef,
    i: usize,
    c: Change,
    sample: Clocks,
    sink: SinkError,
    pm: PmError,
    gear: GearError,
)
    requires
        i < n,
    ensures
        ({
            let q = BracketPhase::Quiescing(i);
            let r = BracketPhase::Reconfiguring(i);
            let x = BracketPhase::Changing(c);
            let failed = BracketPhase::Finished(Err::<(), Error>(Error::Sink(sink)));
            &&& wanted(q) == Some(BracketAction::Quiesce(i))
            &&& wanted(r) == Some(BracketAction::Reconfigure(i))
            &&& wanted(x) == Some(BracketAction::Change(c))
            &&& i + 1 < n ==> phase_after(q, n, op, clock, BracketEvent::Quiesced(Ok(())))
                == BracketPhase::Quiescing((i + 1) as usize)
            &&& i + 1 < n ==> phase_after(r, n, op, clock, BracketEvent::Reconfigured(Ok(())))
                == BracketPhase::Reconfiguring((i + 1) as usize)
            &&& i + 1 == n ==> phase_after(r, n, op, clock, BracketEvent::Reconfigured(Ok(())))
                == BracketPhase::Finished(Ok::<(), Error>(()))
            &&& phase_after(x, n, op, clock, BracketEvent::Changed(Ok(sample)))
                == BracketPhase::Reconfiguring(0)
            &&& phase_after(x, 0, op, clock, BracketEvent::Changed(Ok(sample)))
                == BracketPhase::Finished(Ok::<(), Error>(()))
            &&& phase_after(q, n, op, clock, BracketEvent::Quiesced(Err(sink))) == failed
            &&& phase_after(r, n, op, clock, BracketEvent::Reconfigured(Err(sink))) == failed
            &&& phase_after(x, n, op, clock, BracketEvent::Changed(Err(ChangeError::Perf(pm))))
                == BracketPhase::Finished(Err::<(), Error>(Error::Perf(pm)))
            &&& phase_after(x, n, op, clock, BracketEvent::Changed(Err(ChangeError::Gear(gear))))
                == BracketPhase::Finished(Err::<(), Error>(Error::Gear(gear)))
        }),
{
}

/// What the outcome of the change of the clock does: a success goes on to the first sink, or ends the
/// change if there is none; a failure ends it with the error that was given. A change that is not
/// at the clock takes no notice.
pub proof fn law_outcome_of_the_change(
    change: Change,
    phase: BracketPhase,
    n: usize,
    sample: Clocks,
    power: PmError,
    gear: GearError,
    outcome: Result<Clocks, ChangeError>,
)
    ensures
        changed_to(BracketPhase::Changing(change), n, Ok(sample)) == if n == 0 {
            BracketPhase::Finished(Ok(()))
        } else {
            BracketPhase::Reconfiguring(0)
        },
        changed_to(BracketPhase::Changing(change), n, Err(ChangeError::Perf(power)))
            == BracketPhase::Finished(Err(Error::Perf(power))),
        changed_to(BracketPhase::Changing(change), n, Err(ChangeError::Gear(gear)))
            == BracketPhase::Finished(Err(Error::Gear(gear))),
        !(phase is Changing) ==> changed_to(phase, n, outcome) == phase,
{
}

} // verus!
