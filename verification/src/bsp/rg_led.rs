//! The red and green light, behind a PCA9538 port expander.
//!
//! Port 4 drives green, port 5 red, and a port that is low lights its colour. The other ports stay
//! inputs. Each change is one write of the output latch; the driver takes it over only once it was
//! written, so it always knows what the latch holds.

use vstd::prelude::*;

verus! {

/// The expander's bus address.
pub const ADDR: u8 = 0x70;

/// The output latch: a port whose bit is clear is driven low.
pub const REG_OUTPUT: u8 = 0x01;

/// The directions: a port whose bit is clear is an output.
pub const REG_CONFIG: u8 = 0x03;

/// The green light.
pub const LED_G: u8 = 0x10;

/// The red light.
pub const LED_R: u8 = 0x20;

/// The directions in use: ports 4 and 5 are outputs, the others inputs.
pub const CONFIG_MASK: u8 = 0xcf;

/// A write to the expander: a register and its new contents.
#[derive(Clone, Copy, Debug, PartialEq, Eq, Structural)]
pub struct Write {
    pub address: u8,
    pub reg: u8,
    pub value: u8,
}

/// A write of the output latch.
pub open spec fn latch_write(value: u8) -> Write {
    Write { address: ADDR, reg: REG_OUTPUT, value }
}

/// The latch with the light of `mask` on or off.
pub open spec fn with_light(out: u8, mask: u8, on: bool) -> u8 {
    if on {
        out & !mask
    } else {
        out | mask
    }
}

/// Bringing the expander up: the latch is set with both lights off before the ports become
/// outputs, so no light flashes.
pub struct Init<I> {
    i2c: I,
    written: u8,
}

impl<I> Init<I> {
    /// The bus.
    pub closed spec fn bus_view(self) -> I {
        self.i2c
    }

    /// How many of the two writes are done.
    pub closed spec fn done(self) -> int {
        self.written as int
    }

    /// The next write.
    pub open spec fn wants(self) -> Option<Write> {
        if self.done() == 0 {
            Some(latch_write(0xff))
        } else if self.done() == 1 {
            Some(Write { address: ADDR, reg: REG_CONFIG, value: CONFIG_MASK })
        } else {
            None
        }
    }

    /// The next write, or `None` once the expander is up.
    pub fn write(&self) -> (w: Option<Write>)
        ensures
            w == self.wants(),
    {
        if self.written == 0 {
            Some(Write { address: ADDR, reg: REG_OUTPUT, value: 0xff })
        } else if self.written == 1 {
            Some(Write { address: ADDR, reg: REG_CONFIG, value: CONFIG_MASK })
        } else {
            None
        }
    }

    /// The bus, for the write.
    pub fn bus(&mut self) -> (b: &mut I)
        ensures
            *b == old(self).bus_view(),
            final(self).bus_view() == *final(b),
            final(self).done() == old(self).done(),
    {
        &mut self.i2c
    }

    /// Goes on after a write, or ends with its error.
    pub fn advance<E>(self, outcome: Result<(), E>) -> (r: Result<Init<I>, E>)
        ensures
            match (outcome, r) {
                (Ok(_), Ok(n)) => n.bus_view() == self.bus_view() && n.done() == if self.done() < 2 {
                    self.done() + 1
                } else {
                    self.done()
                },
                (Err(e), Err(f)) => f == e,
                _ => false,
            },
    {
        match outcome {
            Ok(_) => if self.written < 2 {
                Ok(Init { i2c: self.i2c, written: self.written + 1 })
            } else {
                Ok(self)
            },
            Err(e) => Err(e),
        }
    }

    /// The driver, once both writes are done.
    pub fn finish(self) -> (r: Option<RgLed<I>>)
        ensures
            match r {
                Some(led) => self.wants() is None && led.bus_view() == self.bus_view()
                    && led.latch() == 0xff,
                None => self.wants() is Some,
            },
    {
        if self.write().is_none() {
            Some(RgLed { i2c: self.i2c, out: 0xff })
        } else {
            None
        }
    }
}

/// The light.
pub struct RgLed<I> {
    i2c: I,
    /// What the output latch holds.
    out: u8,
}

impl<I> RgLed<I> {
    /// The bus.
    pub closed spec fn bus_view(self) -> I {
        self.i2c
    }

    /// What the output latch holds.
    pub closed spec fn latch(self) -> u8 {
        self.out
    }

    /// Starts to bring the expander up, with both lights off.
    pub fn new(i2c: I) -> (s: Init<I>)
        ensures
            s.bus_view() == i2c,
            s.done() == 0,
    {
        Init { i2c, written: 0 }
    }

    /// Turns red on.
    pub fn red_on(&mut self) -> (c: LedChange<'_, I>)
        ensures
            c.latch() == with_light(old(self).latch(), LED_R, true),
            *c.driver() == *old(self),
            *final(self) == *final(c.driver()),
    {
        self.set_red(true)
    }

    /// Turns red off.
    pub fn red_off(&mut self) -> (c: LedChange<'_, I>)
        ensures
            c.latch() == with_light(old(self).latch(), LED_R, false),
            *c.driver() == *old(self),
            *final(self) == *final(c.driver()),
    {
        self.set_red(false)
    }

    /// Turns red on or off.
    pub fn set_red(&mut self, on: bool) -> (c: LedChange<'_, I>)
        ensures
            c.latch() == with_light(old(self).latch(), LED_R, on),
            *c.driver() == *old(self),
            *final(self) == *final(c.driver()),
    {
        self.set_bit(LED_R, on)
    }

    /// Whether red is on.
    pub fn is_red_on(&self) -> (r: bool)
        ensures
            r == (self.latch() & LED_R == 0),
    {
        self.out & LED_R == 0
    }

    /// Turns green on.
    pub fn green_on(&mut self) -> (c: LedChange<'_, I>)
        ensures
            c.latch() == with_light(old(self).latch(), LED_G, true),
            *c.driver() == *old(self),
            *final(self) == *final(c.driver()),
    {
        self.set_green(true)
    }

    /// Turns green off.
    pub fn green_off(&mut self) -> (c: LedChange<'_, I>)
        ensures
            c.latch() == with_light(old(self).latch(), LED_G, false),
            *c.driver() == *old(self),
            *final(self) == *final(c.driver()),
    {
        self.set_green(false)
    }

    /// Turns green on or off.
    pub fn set_green(&mut self, on: bool) -> (c: LedChange<'_, I>)
        ensures
            c.latch() == with_light(old(self).latch(), LED_G, on),
            *c.driver() == *old(self),
            *final(self) == *final(c.driver()),
    {
        self.set_bit(LED_G, on)
    }

    /// Whether green is on.
    pub fn is_green_on(&self) -> (r: bool)
        ensures
            r == (self.latch() & LED_G == 0),
    {
        self.out & LED_G == 0
    }

    /// Turns both off with one write.
    pub fn both_off(&mut self) -> (c: LedChange<'_, I>)
        ensures
            c.latch() == old(self).latch() | LED_G | LED_R,
            *c.driver() == *old(self),
            *final(self) == *final(c.driver()),
    {
        let next: u8 = self.out | LED_G | LED_R;
        LedChange { led: self, next }
    }

    /// The bus, for other drivers.
    pub fn free(self) -> (i: I)
        ensures
            i == self.bus_view(),
    {
        self.i2c
    }

    fn set_bit(&mut self, mask: u8, on: bool) -> (c: LedChange<'_, I>)
        ensures
            c.latch() == with_light(old(self).latch(), mask, on),
            *c.driver() == *old(self),
            *final(self) == *final(c.driver()),
    {
        let next: u8 = if on {
            self.out & !mask
        } else {
            self.out | mask
        };
        LedChange { led: self, next }
    }
}

/// A change of the light that has yet to be written.
pub struct LedChange<'a, I> {
    led: &'a mut RgLed<I>,
    next: u8,
}

impl<'a, I> LedChange<'a, I> {
    /// The driver whose light is changed.
    pub closed spec fn driver(self) -> &'a mut RgLed<I> {
        self.led
    }

    /// What the output latch is to hold.
    pub closed spec fn latch(self) -> u8 {
        self.next
    }

    /// The write that makes the change.
    pub fn write(&self) -> (w: Write)
        ensures
            w == latch_write(self.latch()),
    {
        Write { address: ADDR, reg: REG_OUTPUT, value: self.next }
    }

    /// The bus, for the write.
    pub fn bus(&mut self) -> (b: &mut I)
        ensures
            *b == old(self).driver().bus_view(),
            final(self).driver().bus_view() == *final(b),
            final(self).driver().latch() == old(self).driver().latch(),
            final(self).latch() == old(self).latch(),
            *final(final(self).driver()) == *final(old(self).driver()),
    {
        &mut self.led.i2c
    }

    /// Ends the change: the driver takes it over if it was written, and stays as it was if not.
    pub fn finish<E>(self, outcome: Result<(), E>) -> (r: Result<(), E>)
        ensures
            r == outcome,
            final(self.driver()).bus_view() == self.driver().bus_view(),
            final(self.driver()).latch() == if outcome is Ok {
                self.latch()
            } else {
                self.driver().latch()
            },
    {
        match outcome {
            Ok(done) => {
                self.led.out = self.next;
                Ok(done)
            },
            Err(e) => Err(e),
        }
    }
}

/// What the expander holds.
pub struct Expander {
    pub output: u8,
    pub config: u8,
}

/// The expander after a write.
pub open spec fn accepted(x: Expander, w: Write) -> Expander {
    if w.reg == REG_OUTPUT {
        Expander { output: w.value, ..x }
    } else if w.reg == REG_CONFIG {
        Expander { config: w.value, ..x }
    } else {
        x
    }
}

/// Whether the port of `mask` lights: it is an output, and low.
pub open spec fn lit(x: Expander, mask: u8) -> bool {
    x.config & mask == 0 && x.output & mask == 0
}

/// Whichever state the expander was in, bringing it up leaves ports 4 and 5 as the only outputs and
/// both lights off, and neither light is on after the first of the two writes.
pub proof fn law_init_is_dark(x: Expander)
    ensures
        ({
            let first = accepted(x, latch_write(0xff));
            let second = accepted(
                first,
                Write { address: ADDR, reg: REG_CONFIG, value: CONFIG_MASK },
            );
            &&& second.output == 0xff
            &&& second.config == CONFIG_MASK
            &&& !lit(first, LED_R) && !lit(first, LED_G)
            &&& !lit(second, LED_R) && !lit(second, LED_G)
        }),
        CONFIG_MASK == !(LED_G | LED_R),
{
    assert(0xffu8 & 0x20 != 0 && 0xffu8 & 0x10 != 0 && 0xcfu8 == !(0x10u8 | 0x20u8))
        by (bit_vector);
}

/// Once the expander is up, a light that is switched has the state that was asked for, the other
/// one keeps its own, and the ports that are inputs keep their latch.
pub proof fn law_light_is_switched(out: u8, on: bool)
    ensures
        ({
            let red = with_light(out, LED_R, on);
            let green = with_light(out, LED_G, on);
            &&& (red & LED_R == 0) == on
            &&& red & LED_G == out & LED_G
            &&& red & CONFIG_MASK == out & CONFIG_MASK
            &&& (green & LED_G == 0) == on
            &&& green & LED_R == out & LED_R
            &&& green & CONFIG_MASK == out & CONFIG_MASK
        }),
        (out | LED_G | LED_R) & LED_R != 0,
        (out | LED_G | LED_R) & LED_G != 0,
        (out | LED_G | LED_R) & CONFIG_MASK == out & CONFIG_MASK,
{
    assert((out & !0x20u8) & 0x20 == 0 && (out | 0x20) & 0x20 != 0 && (out & !0x20u8) & 0x10 == out
        & 0x10 && (out | 0x20) & 0x10 == out & 0x10 && (out & !0x20u8) & 0xcf == out & 0xcf && (out
        | 0x20) & 0xcf == out & 0xcf && (out & !0x10u8) & 0x10 == 0 && (out | 0x10) & 0x10 != 0 && (
    out & !0x10u8) & 0x20 == out & 0x20 && (out | 0x10) & 0x20 == out & 0x20 && (out & !0x10u8)
        & 0xcf == out & 0xcf && (out | 0x10) & 0xcf == out & 0xcf && (out | 0x10 | 0x20) & 0x20 != 0
        && (out | 0x10 | 0x20) & 0x10 != 0 && (out | 0x10 | 0x20) & 0xcf == out & 0xcf)
        by (bit_vector);
}

/// What the driver takes the latch for is what the latch holds, whether a write succeeds or fails:
/// so the lights that it reports are the lights that are on.
pub proof fn law_cache_matches_latch(x: Expander, cached: u8, next: u8, succeeds: bool)
    requires
        x.output == cached,
        x.config == CONFIG_MASK,
    ensures
        ({
            let after = if succeeds {
                accepted(x, latch_write(next))
            } else {
                x
            };
            let known = if succeeds {
                next
            } else {
                cached
            };
            &&& after.output == known
            &&& after.config == CONFIG_MASK
            &&& lit(after, LED_R) == (known & LED_R == 0)
            &&& lit(after, LED_G) == (known & LED_G == 0)
        }),
{
    assert(0xcfu8 & 0x20 == 0 && 0xcfu8 & 0x10 == 0) by (bit_vector);
}

/// What the driver can be asked for.
pub enum Switch {
    Red(bool),
    Green(bool),
    BothOff,
}

/// The latch that a request asks for.
pub open spec fn switched(out: u8, s: Switch) -> u8 {
    match s {
        Switch::Red(on) => with_light(out, LED_R, on),
        Switch::Green(on) => with_light(out, LED_G, on),
        Switch::BothOff => out | LED_G | LED_R,
    }
}

/// The latch of a driver that was brought up and then got `requests`, each of which was written or
/// failed.
pub open spec fn latch_after(requests: Seq<(Switch, bool)>) -> u8
    decreases requests.len(),
{
    if requests.len() == 0 {
        0xff
    } else {
        let before = latch_after(requests.drop_last());
        let (s, written) = requests.last();
        if written {
            switched(before, s)
        } else {
            before
        }
    }
}

/// Whatever the driver is asked for and whichever of its writes fail, the bits of the ports that it
/// does not drive are set in its latch, and in every byte that it ever writes there.
pub proof fn law_other_ports_stay_set(requests: Seq<(Switch, bool)>, s: Switch)
    ensures
        latch_after(requests) & CONFIG_MASK == CONFIG_MASK,
        switched(latch_after(requests), s) & CONFIG_MASK == CONFIG_MASK,
    decreases requests.len(),
{
    if requests.len() > 0 {
        law_other_ports_stay_set(requests.drop_last(), requests.last().0);
    } else {
        assert(0xffu8 & 0xcf == 0xcf) by (bit_vector);
    }
    let out = latch_after(requests);
    law_light_is_switched(out, true);
    law_light_is_switched(out, false);
}

/// Where the lights are: the expander answers at 0x70, its latch is register 1 and its directions
/// are register 3, and green is port 4 and red port 5. Every change is a write of the latch.
pub proof fn law_ports_of_the_lights(value: u8)
    ensures
        latch_write(value).address == 0x70,
        latch_write(value).reg == 1,
        latch_write(value).value == value,
        ADDR == 0x70,
        REG_CONFIG == 3,
        LED_G == 16,
        LED_R == 32,
        CONFIG_MASK == 255 - 16 - 32,
{
}

} // verus!
