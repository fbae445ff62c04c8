//! The positioning engine.
//!
//! Positioning is done by firmware on a core of its own. The driver loads and starts that firmware
//! through remote calls, configures it through more of them, and starts and stops positioning with
//! signals. Each operation of [`Gnss`] that has to wait is a value of its own ([`Boot`],
//! [`Start`], [`Stop`], [`WaitUpdate`], [`Shutdown`], [`GdCall`]): as long as its `action` is not
//! `None`, the caller performs that operation and hands the reply to `step`; then the value is
//! turned into the result of the operation.
//!
//! An operation is *poisoned* when a remote call timed out, a signal could not be pushed, or the
//! rail could not be switched. The firmware may then still use memory that the caller handed over,
//! so there is no way back: the caller must halt.
//!
//! [`Gnss`] borrows the clock at its high operating point until it is shut down, so the operating
//! point cannot move while the firmware runs.

use vstd::prelude::*;

use crate::sealed::Sealed;
use std::marker::PhantomData;

pub use crate::gnss::rpc::GnssError;
pub use crate::gnss::types::{
    Date, GpsFamily, OperationMode, SatelliteSystems, Secondary, StartMode, Time, MAX_SV_NUM,
};

pub mod boot;
pub mod config;
pub mod latch;
pub mod proto;
pub mod rpc;
pub mod rtc;
pub mod session;
pub mod traffic;
pub mod types;

verus! {

/// How long the firmware may take to acknowledge a command.
pub const ACK_TIMEOUT_MS: u32 = 5_000;

/// How long the firmware needs after it signalled that it finished before it can be started. A
/// start that comes earlier is refused, and so is every later one until the next boot.
pub const START_SETTLE_MS: u32 = 2_000;

/// The load switch of the rail that feeds the antenna amplifier. The rail also feeds the system's
/// reference oscillator, so it is never switched off.
pub const LSW_TCXO_LNA: u8 = 0x10;

/// A state of [`Gnss`]. There are those of this module, and no other crate can add one.
pub trait State: Sealed {

}

/// The firmware runs and does not position: it can be configured.
pub struct Idle;

/// The firmware positions: its output can be read.
pub struct Running;

impl Sealed for Idle {

}

impl Sealed for Running {

}

impl State for Idle {

}

impl State for Running {

}

/// Whether the driver is taken. The program keeps one of these.
pub struct Singleton {
    pub taken: bool,
}

impl Singleton {
    /// A driver that nobody has taken.
    pub fn new() -> (s: Singleton)
        ensures
            !s.taken,
    {
        Singleton { taken: false }
    }
}

/// The positioning engine, with its firmware running.
pub struct Gnss<'clk, S: State> {
    /// A positioning epoch was announced before anybody waited for it.
    position_pending: bool,
    /// The tick from which the firmware may be started.
    ready_at: u64,
    state: PhantomData<S>,
    clk: PhantomData<&'clk ()>,
}

impl<'clk, S: State> Gnss<'clk, S> {
    /// Whether an epoch was announced that nobody waited for.
    pub closed spec fn pending(self) -> bool {
        self.position_pending
    }

    /// The tick from which the firmware may be started.
    pub closed spec fn ready(self) -> u64 {
        self.ready_at
    }

    /// Whether the start tick is one that the clock can come to.
    pub open spec fn wf(self) -> bool {
        self.ready() < 2 * rtc::tick_limit()
    }
}

} // verus!
