//! Remote calls that configure the firmware and read its output.

use vstd::prelude::*;

use crate::farapi::DEFAULT_POLL_BUDGET;
use crate::gnss::latch::Latch;
use crate::gnss::proto;
use crate::gnss::proto::{as_signed, CPU_GPS, DEV_GNSS};
use crate::gnss::rpc::{
    fw_result, Rpc, RpcPhase, API_GD_GETOPERATIONMODE, API_GD_GETSATELLITESYSTEM,
    API_GD_READBUFFER, API_GD_SELECTSATELLITESYSTEM, API_GD_SETOPERATIONMODE, MODID_GNSS,
};
use crate::gnss::rtc;
use crate::gnss::rtc::remaining_ms;
use crate::gnss::types::{OperationMode, SatelliteSystems};
use crate::gnss::{Gnss, GnssError, Idle, Running, State};
use crate::icc;
use crate::icc::{Action, Reply};

verus! {

/// A remote call to the positioning firmware, which borrows the driver.
pub struct GdCall<'g, 'clk, S: State> {
    pub gnss: &'g mut Gnss<'clk, S>,
    pub latch: Latch,
    pub rpc: Rpc,
}

/// What the return value of a call comes to.
pub open spec fn call_result(ret: i32) -> Result<(), GnssError> {
    if ret < 0 {
        Err(GnssError::Firmware(ret))
    } else {
        Ok(())
    }
}

/// What a call for the operation mode comes to. A mode that the driver does not know is reported
/// as the firmware's error, with the sign changed.
pub open spec fn operation_result(ret: i32, mode: u32, cycle_ms: u32) -> Result<
    (OperationMode, u32),
    GnssError,
> {
    if ret < 0 {
        Err(GnssError::Firmware(ret))
    } else if mode == 1 {
        Ok((OperationMode::Normal, cycle_ms))
    } else if mode == 0x8000_0000 {
        Err(GnssError::Firmware(i32::MIN))
    } else {
        Err(GnssError::Firmware((-proto::signed(mode)) as i32))
    }
}

impl<'g, 'clk, S: State> GdCall<'g, 'clk, S> {
    /// What to do next, or `None` once the call is over.
    pub fn action(&self) -> (a: Option<Action>)
        ensures
            a == self.rpc.wants(),
    {
        self.rpc.action()
    }

    /// Takes the reply to the last action.
    pub fn step(&mut self, reply: Reply)
        ensures
            (final(self).rpc, final(self).latch) == old(self).rpc.next(old(self).latch, reply),
            final(self).gnss == old(self).gnss,
    {
        let (rpc, latch) = self.rpc.step(self.latch, reply);
        self.rpc = rpc;
        self.latch = latch;
    }

    /// Whether the call is over.
    pub fn is_finished(&self) -> (r: bool)
        ensures
            r == (self.rpc.phase is Finished),
    {
        matches!(self.rpc.phase, RpcPhase::Finished(_))
    }

    /// Whether the transport is dead.
    pub fn is_poisoned(&self) -> (r: bool)
        ensures
            r == (self.rpc.phase is Poisoned),
    {
        matches!(self.rpc.phase, RpcPhase::Poisoned)
    }

    fn gd_rpc(self) -> (ret: i32)
        requires
            self.rpc.phase is Finished,
        ensures
            self.rpc.phase == RpcPhase::Finished(ret),
            final(self.gnss).pending() == (old(self.gnss).pending() || self.latch.position),
            final(self.gnss).ready() == old(self.gnss).ready(),
    {
        if self.latch.position {
            self.gnss.position_pending = true;
        }
        match self.rpc.phase {
            RpcPhase::Finished(ret) => ret,
            _ => 0,
        }
    }

    /// Ends a call that is over. The driver keeps an epoch that was announced meanwhile.
    pub fn finish(self) -> (r: Result<(), GnssError>)
        requires
            self.rpc.phase is Finished,
        ensures
            r == call_result(self.rpc.phase->Finished_0),
            final(self.gnss).pending() == (old(self.gnss).pending() || self.latch.position),
            final(self.gnss).ready() == old(self.gnss).ready(),
    {
        match fw_result(self.gd_rpc()) {
            Ok(_) => Ok(()),
            Err(e) => Err(e),
        }
    }

    /// Ends a call for the satellite systems that is over. `out` is what the firmware wrote at the
    /// address that the call named.
    pub fn finish_systems(self, out: u32) -> (r: Result<SatelliteSystems, GnssError>)
        requires
            self.rpc.phase is Finished,
        ensures
            match (call_result(self.rpc.phase->Finished_0), r) {
                (Ok(_), Ok(s)) => s.mask() == out,
                (Err(e), Err(f)) => f == e,
                _ => false,
            },
            final(self.gnss).pending() == (old(self.gnss).pending() || self.latch.position),
            final(self.gnss).ready() == old(self.gnss).ready(),
    {
        match fw_result(self.gd_rpc()) {
            Ok(_) => Ok(SatelliteSystems::from_bits(out)),
            Err(e) => Err(e),
        }
    }

    /// Ends a call for the operation mode that is over. `mode` and `cycle_ms` are what the
    /// firmware wrote at the addresses that the call named.
    pub fn finish_operation(self, mode: u32, cycle_ms: u32) -> (r: Result<
        (OperationMode, u32),
        GnssError,
    >)
        requires
            self.rpc.phase is Finished,
        ensures
            r == operation_result(self.rpc.phase->Finished_0, mode, cycle_ms),
            final(self.gnss).pending() == (old(self.gnss).pending() || self.latch.position),
            final(self.gnss).ready() == old(self.gnss).ready(),
    {
        match fw_result(self.gd_rpc()) {
            Ok(_) => {
                if mode == 1 {
                    return Ok((OperationMode::Normal, cycle_ms));
                }
                let code: i32 = as_signed(mode);
                let negated: i32 = if code == i32::MIN {
                    code
                } else {
                    -code
                };
                Err(GnssError::Firmware(negated))
            },
            Err(e) => Err(e),
        }
    }
}

impl<'clk> Gnss<'clk, Idle> {
    /// Milliseconds until the firmware can be started without a wait, given the current tick.
    pub fn settle_remaining_ms(&self, now: u64) -> (ms: u32)
        requires
            self.wf(),
        ensures
            ms == if now >= self.ready() {
                0
            } else {
                ((self.ready() - now) * 1000 + 32_767) / 32_768 % 0x1_0000_0000
            },
    {
        remaining_ms(self.ready_at, now)
    }

    /// Selects the satellite systems. The firmware refuses a mask that names two constellations
    /// which exclude one another.
    pub fn select_systems<'g>(&'g mut self, systems: SatelliteSystems) -> (c: GdCall<'g, 'clk, Idle>)
        ensures
            c.rpc == Rpc::gd(API_GD_SELECTSATELLITESYSTEM, [systems.mask(), 0, 0, 0]),
            c.rpc.is_call(1, 8, 12, seq![systems.mask(), 0u32, 0u32, 0u32], 5_000_000),
            c.latch == Latch::empty(),
            *c.gnss == *old(self),
            *final(self) == *final(c.gnss),
    {
        self.call(API_GD_SELECTSATELLITESYSTEM, [systems.bits(), 0, 0, 0])
    }

    /// Asks for the satellite systems, which the firmware writes at the address `out`:
    /// [`GdCall::finish_systems`] takes what is there.
    pub fn systems<'g>(&'g mut self, out: u32) -> (c: GdCall<'g, 'clk, Idle>)
        ensures
            c.rpc == Rpc::gd(API_GD_GETSATELLITESYSTEM, [out, 0, 0, 0]),
            c.rpc.is_call(1, 8, 16, seq![out, 0u32, 0u32, 0u32], 5_000_000),
            c.latch == Latch::empty(),
            *c.gnss == *old(self),
            *final(self) == *final(c.gnss),
    {
        self.call(API_GD_GETSATELLITESYSTEM, [out, 0, 0, 0])
    }

    /// Sets the operation mode and the output cycle. The firmware refuses a cycle that is not a
    /// multiple of 1000 ms.
    pub fn set_operation<'g>(&'g mut self, mode: OperationMode, cycle_ms: u32) -> (c: GdCall<
        'g,
        'clk,
        Idle,
    >)
        ensures
            c.rpc == Rpc::gd(API_GD_SETOPERATIONMODE, [mode.spec_code(), cycle_ms, 0, 0]),
            c.rpc.is_call(1, 8, 28, seq![1u32, cycle_ms, 0u32, 0u32], 5_000_000),
            c.latch == Latch::empty(),
            *c.gnss == *old(self),
            *final(self) == *final(c.gnss),
    {
        self.call(API_GD_SETOPERATIONMODE, [mode.code(), cycle_ms, 0, 0])
    }

    /// Asks for the operation mode and the output cycle, which the firmware writes at the
    /// addresses `mode` and `cycle`: [`GdCall::finish_operation`] takes what is there.
    pub fn operation<'g>(&'g mut self, mode: u32, cycle: u32) -> (c: GdCall<'g, 'clk, Idle>)
        ensures
            c.rpc == Rpc::gd(API_GD_GETOPERATIONMODE, [mode, cycle, 0, 0]),
            c.rpc.is_call(1, 8, 32, seq![mode, cycle, 0u32, 0u32], 5_000_000),
            c.latch == Latch::empty(),
            *c.gnss == *old(self),
            *final(self) == *final(c.gnss),
    {
        self.call(API_GD_GETOPERATIONMODE, [mode, cycle, 0, 0])
    }
}

impl<'clk> Gnss<'clk, Running> {
    /// Asks for the latest epoch, of which the firmware writes `len` bytes at the address `out`.
    pub fn read_position<'g>(&'g mut self, out: u32, len: u32) -> (c: GdCall<'g, 'clk, Running>)
        ensures
            c.rpc == Rpc::gd(API_GD_READBUFFER, [DEV_GNSS, 0, out, len]),
            c.rpc.is_call(1, 8, 144, seq![0u32, 0u32, out, len], 5_000_000),
            c.latch == Latch::empty(),
            *c.gnss == *old(self),
            *final(self) == *final(c.gnss),
    {
        self.call(API_GD_READBUFFER, [DEV_GNSS, 0, out, len])
    }
}

impl<'clk, S: State> Gnss<'clk, S> {
    fn call<'g>(&'g mut self, api_id: i32, arg: [u32; 4]) -> (c: GdCall<'g, 'clk, S>)
        ensures
            c.rpc == Rpc::gd(api_id, arg),
            c.rpc.is_call(1, 8, api_id as int, arg@, 5_000_000),
            c.latch == Latch::empty(),
            *c.gnss == *old(self),
            *final(self) == *final(c.gnss),
    {
        GdCall {
            gnss: self,
            latch: Latch::default(),
            rpc: Rpc::rpc(CPU_GPS, MODID_GNSS, api_id, arg, DEFAULT_POLL_BUDGET),
        }
    }

    /// The major, minor and build number in the firmware's version word.
    pub fn firmware_version(&self, word: u32) -> (v: (u8, u8, u32))
        ensures
            v.0 == word as int / 0x1000_0000,
            v.1 == word as int / 0x10_0000 % 256,
            v.2 == word as int % 0x10_0000,
    {
        proof {
            icc::lemma_fields(word);
            assert((word >> 20) & 0xff == word / 0x10_0000 % 256 && word & 0xf_ffff == word
                % 0x10_0000) by (bit_vector);
        }
        (((word >> 28) & 0xf) as u8, ((word >> 20) & 0xff) as u8, word & 0xf_ffff)
    }
}

/// A positioning epoch that is announced during a call is not lost: the next wait gets it.
pub proof fn law_call_keeps_epochs(rpc: Rpc, latch: Latch, reply: Reply)
    requires
        latch.position,
    ensures
        rpc.next(latch, reply).1.position,
{
}

/// What a call comes to: its return value, with its sign, is the firmware's error if it is negative,
/// and otherwise means success. A mode other than 1 is the error that its negative stands for.
pub proof fn law_call_results(ret: i32, mode: u32, cycle_ms: u32)
    ensures
        call_result(ret) is Ok <==> ret >= 0,
        ret < 0 ==> call_result(ret) == Err::<(), GnssError>(GnssError::Firmware(ret)),
        match operation_result(ret, mode, cycle_ms) {
            Ok((m, cycle)) => ret >= 0 && mode == 1 && m == OperationMode::Normal && cycle
                == cycle_ms,
            Err(GnssError::Firmware(e)) => {
                ||| ret < 0 && e == ret
                ||| ret >= 0 && mode != 1 && (e + mode) % 0x1_0000_0000 == 0
            },
            Err(_) => false,
        },
{
}

} // verus!
