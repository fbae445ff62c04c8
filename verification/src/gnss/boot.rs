//! The boot of the positioning firmware.

use vstd::prelude::*;

use crate::clocks::profile::{Clock, Hp};
use crate::farapi::{CPUID_SYSIOP, DEFAULT_POLL_BUDGET};
use crate::gnss::latch;
use crate::gnss::latch::{Goal, Latch, Wait, WaitPhase};
use crate::gnss::proto;
use crate::gnss::proto::{CPU_GPS, DEV_INFO};
use crate::gnss::rpc;
use crate::gnss::rpc::{
    fw_result, Exchange, GpsOff, Rpc, RpcPhase, API_GD_WRITEBUFFER, API_PM_LOADIMAGE,
    API_PM_SLEEPCPU, API_PM_STARTCPU, MODID_GNSS, MODID_PM, PM_SLEEP_COLD, PM_SLEEP_HOT_DISABLE,
    PM_SLEEP_HOT_ENABLE,
};
use crate::gnss::rtc;
use crate::gnss::rtc::{deadline_after_ms, rtc_now};
use crate::gnss::traffic;
use crate::gnss::traffic::{Reading, Round, Traffic};
use crate::gnss::{Gnss, GnssError, Idle, Singleton, START_SETTLE_MS};
use crate::icc;
use crate::icc::{Action, Reply};
use std::marker::PhantomData;

verus! {

/// How often each phase of the image load is tried: the whole image comes out of flash first.
pub const LOADIMAGE_POLL_BUDGET: u32 = 50_000_000;

/// How long the firmware may take to signal that it finished.
pub const BOOT_TIMEOUT_MS: u32 = 5_000;

/// How often the real-time clock is read before it counts as stopped.
pub const RTC_SPIN_BUDGET: u32 = 2_000_000;

/// The size of the block in which the application reports return values.
pub const SHARED_INFO_SIZE: u32 = 32;

/// Where the boot of the firmware stands.
#[derive(Clone, Copy, Debug)]
pub enum BootPhase {
    /// The clock has yet to be read a first time.
    RtcFirst,
    /// The clock read `start`, and is read `left` more times to see it move.
    RtcMoves { start: u64, left: u32 },
    /// Firmware that an earlier program left running is being powered down.
    Purge(GpsOff),
    LoadImage(Rpc),
    StartCpu(Rpc),
    HotDisable(Rpc),
    /// The clock has yet to be read for the deadline of the boot.
    Deadline,
    AwaitBootComp(Wait),
    /// The clock has yet to be read for the earliest start.
    Settle,
    Register { ready_at: u64, rpc: Rpc },
    /// The boot failed, and the core is being powered down.
    Abandon { err: GnssError, off: GpsOff },
    /// The tick from which the firmware may be started, or why there is none.
    Finished(Result<u64, GnssError>),
    Poisoned,
}

/// The boot of the firmware.
#[derive(Clone, Copy, Debug)]
pub struct Booting {
    /// Address of the name of the firmware's image.
    pub fw_name: u32,
    /// Address of the block in which the application reports return values.
    pub info: u32,
    pub latch: Latch,
    pub phase: BootPhase,
}

impl Booting {
    pub open spec fn starting(fw_name: u32, info: u32) -> Booting {
        Booting { fw_name, info, latch: Latch::empty(), phase: BootPhase::RtcFirst }
    }

    pub open spec fn at(self, phase: BootPhase, latch: Latch) -> Booting {
        Booting { phase, latch, ..self }
    }

    pub open spec fn wants(self) -> Option<Action> {
        match self.phase {
            BootPhase::RtcFirst
            | BootPhase::RtcMoves { .. }
            | BootPhase::Deadline
            | BootPhase::Settle => Some(Action::ReadRtc),
            BootPhase::Purge(off) => off.wants(),
            BootPhase::LoadImage(r) => r.wants(),
            BootPhase::StartCpu(r) => r.wants(),
            BootPhase::HotDisable(r) => r.wants(),
            BootPhase::AwaitBootComp(w) => w.wants(),
            BootPhase::Register { rpc, .. } => rpc.wants(),
            BootPhase::Abandon { off, .. } => off.wants(),
            BootPhase::Finished(_) | BootPhase::Poisoned => None,
        }
    }

    /// The phase after the clock was read.
    pub open spec fn clock_read(self, now: u64) -> BootPhase {
        match self.phase {
            BootPhase::RtcFirst => BootPhase::RtcMoves { start: now, left: RTC_SPIN_BUDGET },
            BootPhase::RtcMoves { start, left } => if now != start {
                BootPhase::Purge(GpsOff::starting())
            } else if left <= 1 {
                BootPhase::Finished(Err(GnssError::RtcNotReady))
            } else {
                BootPhase::RtcMoves { start, left: (left - 1) as u32 }
            },
            BootPhase::Deadline => BootPhase::AwaitBootComp(
                Wait::waiting((now + rtc::ticks_in_ms(BOOT_TIMEOUT_MS)) as u64, Goal::BootComp),
            ),
            BootPhase::Settle => BootPhase::Register {
                ready_at: (now + rtc::ticks_in_ms(START_SETTLE_MS)) as u64,
                rpc: Rpc::gd(API_GD_WRITEBUFFER, [DEV_INFO, 0, self.info, SHARED_INFO_SIZE]),
            },
            _ => self.phase,
        }
    }

    /// The phase after a remote call returned `ret`.
    pub open spec fn returned(self, ret: i32) -> BootPhase {
        match self.phase {
            BootPhase::LoadImage(_) => if ret < 0 {
                BootPhase::Finished(Err(GnssError::Firmware(ret)))
            } else {
                BootPhase::StartCpu(Rpc::pm(API_PM_STARTCPU, 1, DEFAULT_POLL_BUDGET))
            },
            BootPhase::StartCpu(_) => if ret < 0 {
                BootPhase::Abandon { err: GnssError::Firmware(ret), off: GpsOff::starting() }
            } else {
                BootPhase::HotDisable(
                    Rpc::pm(API_PM_SLEEPCPU, PM_SLEEP_HOT_DISABLE, DEFAULT_POLL_BUDGET),
                )
            },
            BootPhase::HotDisable(_) => BootPhase::Deadline,
            BootPhase::Register { ready_at, .. } => if ret < 0 {
                BootPhase::Abandon { err: GnssError::Firmware(ret), off: GpsOff::starting() }
            } else {
                BootPhase::Finished(Ok(ready_at))
            },
            _ => self.phase,
        }
    }

    /// The boot with its remote call at `r`.
    pub open spec fn calling(self, r: Rpc, latch: Latch) -> Booting {
        match r.phase {
            RpcPhase::Finished(ret) => self.at(self.returned(ret), latch),
            RpcPhase::Poisoned => self.at(BootPhase::Poisoned, latch),
            _ => self.at(
                match self.phase {
                    BootPhase::LoadImage(_) => BootPhase::LoadImage(r),
                    BootPhase::StartCpu(_) => BootPhase::StartCpu(r),
                    BootPhase::HotDisable(_) => BootPhase::HotDisable(r),
                    BootPhase::Register { ready_at, .. } => BootPhase::Register { ready_at, rpc: r },
                    _ => self.phase,
                },
                latch,
            ),
        }
    }

    pub open spec fn next(self, reply: Reply) -> Booting {
        match self.phase {
            BootPhase::RtcFirst
            | BootPhase::RtcMoves { .. }
            | BootPhase::Deadline
            | BootPhase::Settle => match reply {
                Reply::Rtc { hi, lo, again } => match rtc::ticks(hi, lo, again) {
                    Some(now) => self.at(self.clock_read(now), self.latch),
                    None => self,
                },
                _ => self,
            },
            BootPhase::Purge(off) => {
                let (off2, latch) = off.next(self.latch, reply);
                match off2 {
                    GpsOff::Finished(_) => self.at(
                        BootPhase::LoadImage(
                            Rpc::pm(API_PM_LOADIMAGE, self.fw_name, LOADIMAGE_POLL_BUDGET),
                        ),
                        latch,
                    ),
                    GpsOff::Poisoned => self.at(BootPhase::Poisoned, latch),
                    _ => self.at(BootPhase::Purge(off2), latch),
                }
            },
            BootPhase::LoadImage(r) | BootPhase::StartCpu(r) | BootPhase::HotDisable(r) => {
                let (r2, latch) = r.next(self.latch, reply);
                self.calling(r2, latch)
            },
            BootPhase::Register { rpc, .. } => {
                let (r2, latch) = rpc.next(self.latch, reply);
                self.calling(r2, latch)
            },
            BootPhase::AwaitBootComp(w) => {
                let (w2, latch) = w.next(self.latch, reply);
                match w2.phase {
                    WaitPhase::Finished(true) => self.at(BootPhase::Settle, latch),
                    WaitPhase::Finished(false) => self.at(
                        BootPhase::Abandon {
                            err: GnssError::BootTimeout,
                            off: GpsOff::starting(),
                        },
                        latch,
                    ),
                    WaitPhase::Poisoned => self.at(BootPhase::Poisoned, latch),
                    _ => self.at(BootPhase::AwaitBootComp(w2), latch),
                }
            },
            BootPhase::Abandon { err, off } => {
                let (off2, latch) = off.next(self.latch, reply);
                match off2 {
                    GpsOff::Finished(_) => self.at(BootPhase::Finished(Err(err)), latch),
                    GpsOff::Poisoned => self.at(BootPhase::Poisoned, latch),
                    _ => self.at(BootPhase::Abandon { err, off: off2 }, latch),
                }
            },
            BootPhase::Finished(_) | BootPhase::Poisoned => self,
        }
    }

    /// Whether what is under way in a phase is not over, and the start tick is one that the clock
    /// can come to.
    pub open spec fn wf(self) -> bool {
        match self.phase {
            BootPhase::Purge(off) => off.wf() && off.wants() is Some,
            BootPhase::LoadImage(r) | BootPhase::StartCpu(r) | BootPhase::HotDisable(r) => r.wf()
                && r.wants() is Some,
            BootPhase::AwaitBootComp(w) => w.wf() && w.wants() is Some,
            BootPhase::Register { ready_at, rpc } => rpc.wf() && rpc.wants() is Some && ready_at < 2
                * rtc::tick_limit(),
            BootPhase::Abandon { off, .. } => off.wf() && off.wants() is Some,
            BootPhase::Finished(Ok(ready_at)) => ready_at < 2 * rtc::tick_limit(),
            _ => true,
        }
    }

    pub fn action(&self) -> (a: Option<Action>)
        ensures
            a == self.wants(),
    {
        match self.phase {
            BootPhase::RtcFirst
            | BootPhase::RtcMoves { .. }
            | BootPhase::Deadline
            | BootPhase::Settle => Some(Action::ReadRtc),
            BootPhase::Purge(off) => off.action(),
            BootPhase::LoadImage(r) => r.action(),
            BootPhase::StartCpu(r) => r.action(),
            BootPhase::HotDisable(r) => r.action(),
            BootPhase::AwaitBootComp(w) => w.action(),
            BootPhase::Register { rpc, .. } => rpc.action(),
            BootPhase::Abandon { off, .. } => off.action(),
            BootPhase::Finished(_) | BootPhase::Poisoned => None,
        }
    }

    fn read_clock(&self, now: u64) -> (p: BootPhase)
        requires
            now < rtc::tick_limit(),
        ensures
            p == self.clock_read(now),
    {
        match self.phase {
            BootPhase::RtcFirst => BootPhase::RtcMoves { start: now, left: RTC_SPIN_BUDGET },
            BootPhase::RtcMoves { start, left } => if now != start {
                BootPhase::Purge(GpsOff::gps_cpu_off())
            } else if left <= 1 {
                BootPhase::Finished(Err(GnssError::RtcNotReady))
            } else {
                BootPhase::RtcMoves { start, left: left - 1 }
            },
            BootPhase::Deadline => {
                let deadline: u64 = deadline_after_ms(now, BOOT_TIMEOUT_MS);
                BootPhase::AwaitBootComp(Wait::wait_until(deadline, Goal::BootComp))
            },
            BootPhase::Settle => {
                let ready_at: u64 = deadline_after_ms(now, START_SETTLE_MS);
                let rpc = Rpc::rpc(
                    CPU_GPS,
                    MODID_GNSS,
                    API_GD_WRITEBUFFER,
                    [DEV_INFO, 0, self.info, SHARED_INFO_SIZE],
                    DEFAULT_POLL_BUDGET,
                );
                BootPhase::Register { ready_at, rpc }
            },
            _ => self.phase,
        }
    }

    fn call_returned(&self, ret: i32) -> (p: BootPhase)
        ensures
            p == self.returned(ret),
    {
        match self.phase {
            BootPhase::LoadImage(_) => match fw_result(ret) {
                Err(e) => BootPhase::Finished(Err(e)),
                Ok(_) => BootPhase::StartCpu(
                    Rpc::rpc(
                        CPUID_SYSIOP,
                        MODID_PM,
                        API_PM_STARTCPU,
                        [CPU_GPS, 1, 0, 0],
                        DEFAULT_POLL_BUDGET,
                    ),
                ),
            },
            BootPhase::StartCpu(_) => match fw_result(ret) {
                Err(err) => BootPhase::Abandon { err, off: GpsOff::gps_cpu_off() },
                Ok(_) => BootPhase::HotDisable(
                    Rpc::rpc(
                        CPUID_SYSIOP,
                        MODID_PM,
                        API_PM_SLEEPCPU,
                        [CPU_GPS, PM_SLEEP_HOT_DISABLE, 0, 0],
                        DEFAULT_POLL_BUDGET,
                    ),
                ),
            },
            BootPhase::HotDisable(_) => BootPhase::Deadline,
            BootPhase::Register { ready_at, .. } => match fw_result(ret) {
                Err(err) => BootPhase::Abandon { err, off: GpsOff::gps_cpu_off() },
                Ok(_) => BootPhase::Finished(Ok(ready_at)),
            },
            _ => self.phase,
        }
    }

    fn step_call(self, r: Rpc, reply: Reply) -> (b: Booting)
        ensures
            b == self.calling(r.next(self.latch, reply).0, r.next(self.latch, reply).1),
    {
        let (r2, latch) = r.step(self.latch, reply);
        let phase = match r2.phase {
            RpcPhase::Finished(ret) => self.call_returned(ret),
            RpcPhase::Poisoned => BootPhase::Poisoned,
            _ => match self.phase {
                BootPhase::LoadImage(_) => BootPhase::LoadImage(r2),
                BootPhase::StartCpu(_) => BootPhase::StartCpu(r2),
                BootPhase::HotDisable(_) => BootPhase::HotDisable(r2),
                BootPhase::Register { ready_at, .. } => BootPhase::Register { ready_at, rpc: r2 },
                _ => self.phase,
            },
        };
        Booting { phase, latch, ..self }
    }

    pub fn step(self, reply: Reply) -> (r: Booting)
        ensures
            r == self.next(reply),
            self.wf() ==> r.wf(),
    {
        proof {
            law_boot_progress(self, reply);
        }
        match self.phase {
            BootPhase::RtcFirst
            | BootPhase::RtcMoves { .. }
            | BootPhase::Deadline
            | BootPhase::Settle => match reply {
                Reply::Rtc { hi, lo, again } => match rtc_now(hi, lo, again) {
                    Some(now) => Booting { phase: self.read_clock(now), ..self },
                    None => self,
                },
                _ => self,
            },
            BootPhase::Purge(off) => {
                let (off2, latch) = off.step(self.latch, reply);
                let phase = match off2 {
                    GpsOff::Finished(_) => BootPhase::LoadImage(
                        Rpc::rpc(
                            CPUID_SYSIOP,
                            MODID_PM,
                            API_PM_LOADIMAGE,
                            [CPU_GPS, self.fw_name, 0, 0],
                            LOADIMAGE_POLL_BUDGET,
                        ),
                    ),
                    GpsOff::Poisoned => BootPhase::Poisoned,
                    _ => BootPhase::Purge(off2),
                };
                Booting { phase, latch, ..self }
            },
            BootPhase::LoadImage(r) | BootPhase::StartCpu(r) | BootPhase::HotDisable(r) => {
                self.step_call(r, reply)
            },
            BootPhase::Register { rpc, .. } => self.step_call(rpc, reply),
            BootPhase::AwaitBootComp(w) => {
                let (w2, latch) = w.step(self.latch, reply);
                let phase = match w2.phase {
                    WaitPhase::Finished(true) => BootPhase::Settle,
                    WaitPhase::Finished(false) => BootPhase::Abandon {
                        err: GnssError::BootTimeout,
                        off: GpsOff::gps_cpu_off(),
                    },
                    WaitPhase::Poisoned => BootPhase::Poisoned,
                    _ => BootPhase::AwaitBootComp(w2),
                };
                Booting { phase, latch, ..self }
            },
            BootPhase::Abandon { err, off } => {
                let (off2, latch) = off.step(self.latch, reply);
                let phase = match off2 {
                    GpsOff::Finished(_) => BootPhase::Finished(Err(err)),
                    GpsOff::Poisoned => BootPhase::Poisoned,
                    _ => BootPhase::Abandon { err, off: off2 },
                };
                Booting { phase, latch, ..self }
            },
            BootPhase::Finished(_) | BootPhase::Poisoned => self,
        }
    }
}

/// A boot that is under way stays well formed, and asks for something until it is over.
pub proof fn law_boot_progress(b: Booting, reply: Reply)
    ensures
        b.wf() ==> b.next(reply).wf(),
        b.wf() ==> (b.wants() is None <==> (b.phase is Finished || b.phase is Poisoned)),
{
    if b.wf() {
        match b.phase {
            BootPhase::Purge(off) => {
                rpc::law_gps_off_progress(off, b.latch, reply);
                rpc::law_gps_off_progress(off.next(b.latch, reply).0, b.latch, reply);
            },
            BootPhase::Abandon { off, .. } => {
                rpc::law_gps_off_progress(off, b.latch, reply);
                rpc::law_gps_off_progress(off.next(b.latch, reply).0, b.latch, reply);
            },
            BootPhase::LoadImage(r) | BootPhase::StartCpu(r) | BootPhase::HotDisable(r) => {
                rpc::law_rpc_progress(r, b.latch, reply);
                rpc::law_rpc_progress(r.next(b.latch, reply).0, b.latch, reply);
            },
            BootPhase::Register { rpc, .. } => {
                rpc::law_rpc_progress(rpc, b.latch, reply);
                rpc::law_rpc_progress(rpc.next(b.latch, reply).0, b.latch, reply);
            },
            BootPhase::AwaitBootComp(w) => {
                latch::law_wait_progress(w, b.latch, reply);
                latch::law_wait_progress(w.next(b.latch, reply).0, b.latch, reply);
            },
            _ => {},
        }
    }
}

/// Once the core may be running, a boot fails only after the core was powered down. It fails
/// without that only when the clock stands still, or when the image could not be loaded.
pub proof fn law_failed_boot_powers_down(b: Booting, reply: Reply)
    requires
        !(b.phase is Finished),
        b.next(reply).phase matches BootPhase::Finished(Err(_)),
    ensures
        match b.phase {
            BootPhase::RtcMoves { .. } => b.next(reply).phase == BootPhase::Finished(
                Err::<u64, GnssError>(GnssError::RtcNotReady),
            ),
            BootPhase::LoadImage(r) => r.next(b.latch, reply).0.phase matches RpcPhase::Finished(
                ret,
            ) && ret < 0 && b.next(reply).phase == BootPhase::Finished(
                Err::<u64, GnssError>(GnssError::Firmware(ret)),
            ),
            BootPhase::Abandon { err, off } => off.next(b.latch, reply).0 is Finished && b.next(
                reply,
            ).phase == BootPhase::Finished(Err::<u64, GnssError>(err)),
            _ => false,
        },
{
}

/// A boot succeeds only after the firmware signalled that it finished: the deadline of the boot is
/// left behind only by that signal or by giving up, and the tick from which the firmware may be
/// started is the settling time after the first clock reading that follows the signal.
pub proof fn law_boot_waits_for_firmware(b: Booting, reply: Reply)
    ensures
        b.phase matches BootPhase::AwaitBootComp(w) ==> match b.next(reply).phase {
            BootPhase::Settle => w.next(b.latch, reply).0.phase == WaitPhase::Finished(true),
            BootPhase::AwaitBootComp(_) | BootPhase::Abandon { .. } | BootPhase::Poisoned => true,
            _ => false,
        },
        (b.next(reply).phase is Settle && !(b.phase is Settle)) ==> b.phase is AwaitBootComp,
        (b.next(reply).phase is Register && !(b.phase is Register)) ==> {
            &&& b.phase is Settle
            &&& reply matches Reply::Rtc { hi, lo, again }
            &&& rtc::ticks(hi, lo, again) matches Some(now)
            &&& b.next(reply).phase->ready_at == now + 65_536
        },
        b.phase matches BootPhase::Register { ready_at, .. } ==> match b.next(reply).phase {
            BootPhase::Register { ready_at: r, .. } => r == ready_at,
            BootPhase::Finished(Ok(r)) => r == ready_at,
            BootPhase::Abandon { .. } | BootPhase::Poisoned => true,
            _ => false,
        },
        (b.next(reply).phase matches BootPhase::Finished(Ok(_)) && !(b.phase is Finished))
            ==> b.phase is Register,
{
    if let Reply::Rtc { hi, lo, again } = reply {
        assert(rtc::ticks(hi, lo, again) matches Some(now) ==> now < rtc::tick_limit());
    }
}

impl Booting {
    /// The boot after each of `replies` in turn.
    pub open spec fn run(self, replies: Seq<Reply>) -> Booting
        decreases replies.len(),
    {
        if replies.len() == 0 {
            self
        } else {
            self.run(replies.drop_last()).next(replies.last())
        }
    }

    /// The remote call that is under way, if one is.
    spec fn call(self) -> Option<Rpc> {
        match self.phase {
            BootPhase::Purge(GpsOff::HotEnable(r)) | BootPhase::Purge(GpsOff::Cold(r)) => Some(r),
            BootPhase::LoadImage(r) | BootPhase::StartCpu(r) | BootPhase::HotDisable(r) => Some(r),
            BootPhase::Register { rpc, .. } => Some(rpc),
            _ => None,
        }
    }

    /// The boot with its remote call at `r`.
    spec fn with_call(self, r: Rpc, latch: Latch) -> Booting {
        let phase = match self.phase {
            BootPhase::Purge(GpsOff::HotEnable(_)) => BootPhase::Purge(GpsOff::HotEnable(r)),
            BootPhase::Purge(GpsOff::Cold(_)) => BootPhase::Purge(GpsOff::Cold(r)),
            BootPhase::LoadImage(_) => BootPhase::LoadImage(r),
            BootPhase::StartCpu(_) => BootPhase::StartCpu(r),
            BootPhase::HotDisable(_) => BootPhase::HotDisable(r),
            BootPhase::Register { ready_at, .. } => BootPhase::Register { ready_at, rpc: r },
            _ => self.phase,
        };
        self.at(phase, latch)
    }

    /// The boot once its remote call has returned `ret`.
    spec fn call_over(self, ret: i32, latch: Latch) -> Booting {
        let phase = match self.phase {
            BootPhase::Purge(GpsOff::HotEnable(_)) => BootPhase::Purge(
                GpsOff::Cold(Rpc::pm(API_PM_SLEEPCPU, PM_SLEEP_COLD, DEFAULT_POLL_BUDGET)),
            ),
            BootPhase::Purge(_) => BootPhase::LoadImage(
                Rpc::pm(API_PM_LOADIMAGE, self.fw_name, LOADIMAGE_POLL_BUDGET),
            ),
            _ => self.returned(ret),
        };
        self.at(phase, latch)
    }
}

proof fn lemma_run_concat(b: Booting, first: Seq<Reply>, second: Seq<Reply>)
    ensures
        b.run(first + second) == b.run(first).run(second),
    decreases second.len(),
{
    if second.len() == 0 {
        assert(first + second =~= first);
    } else {
        assert((first + second).drop_last() =~= first + second.drop_last());
        lemma_run_concat(b, first, second.drop_last());
    }
}

proof fn lemma_boot_follows_call(b: Booting, r: Rpc, replies: Seq<Reply>)
    requires
        b.call() == Some(r),
        !r.run(b.latch, replies).0.over(),
    ensures
        b.run(replies) == ({
            let (r1, l1) = r.run(b.latch, replies);
            b.with_call(r1, l1)
        }),
    decreases replies.len(),
{
    if replies.len() > 0 {
        lemma_boot_follows_call(b, r, replies.drop_last());
    }
}

proof fn lemma_boot_call(b: Booting, r: Rpc, x: Exchange)
    requires
        b.call() == Some(r),
        r.phase == RpcPhase::Stage,
        x.wf(r.budget, b.latch),
    ensures
        b.run(x.replies()) == b.call_over(x.returned(), x.after(b.latch)),
{
    let n = x.replies().len() - 1;
    rpc::law_call_returns(r, b.latch, x, n);
    assert(x.replies().take(n) =~= x.replies().drop_last());
    lemma_boot_follows_call(b, r, x.replies().drop_last());
}

proof fn lemma_boot_torn(b: Booting, torn: Seq<Reply>)
    requires
        b.phase is RtcFirst || b.phase is RtcMoves || b.phase is Deadline || b.phase is Settle,
        forall|i: int| 0 <= i < torn.len() ==> rtc::is_torn(#[trigger] torn[i]),
    ensures
        b.run(torn) == b,
    decreases torn.len(),
{
    if torn.len() > 0 {
        lemma_boot_torn(b, torn.drop_last());
        assert(rtc::is_torn(torn[torn.len() - 1]));
    }
}

proof fn lemma_boot_reads(b: Booting, r: Reading)
    requires
        b.phase is RtcFirst || b.phase is RtcMoves || b.phase is Deadline || b.phase is Settle,
        r.wf(),
    ensures
        b.run(r.replies()) == b.at(b.clock_read(r.tick), b.latch),
{
    lemma_boot_torn(b, r.torn);
    assert(r.replies().drop_last() =~= r.torn);
}

/// The replies of readings of the clock.
pub open spec fn readings(rs: Seq<Reading>) -> Seq<Reply>
    decreases rs.len(),
{
    if rs.len() == 0 {
        Seq::empty()
    } else {
        readings(rs.drop_last()) + rs.last().replies()
    }
}

proof fn lemma_boot_still(b: Booting, start: u64, rs: Seq<Reading>)
    requires
        b.phase == (BootPhase::RtcMoves { start, left: RTC_SPIN_BUDGET }),
        rs.len() < RTC_SPIN_BUDGET,
        forall|i: int| 0 <= i < rs.len() ==> (#[trigger] rs[i]).wf() && rs[i].tick == start,
    ensures
        b.run(readings(rs)) == b.at(
            BootPhase::RtcMoves { start, left: (RTC_SPIN_BUDGET - rs.len()) as u32 },
            b.latch,
        ),
    decreases rs.len(),
{
    if rs.len() > 0 {
        let before = rs.drop_last();
        assert(forall|i: int| 0 <= i < before.len() ==> #[trigger] before[i] == rs[i]);
        lemma_boot_still(b, start, before);
        lemma_run_concat(b, readings(before), rs.last().replies());
        lemma_boot_reads(b.run(readings(before)), rs.last());
    }
}

/// What a boot meets up to the end of the image load.
pub struct Loading {
    pub start: Reading,
    /// The readings of a clock that has yet to move.
    pub still: Seq<Reading>,
    pub moved: Reading,
    /// The calls that power the core down, and the one that loads the image.
    pub hot: Exchange,
    pub cold: Exchange,
    pub load: Exchange,
}

impl Loading {
    /// Whether the clock moves in time, and every call gets through.
    pub open spec fn wf(self) -> bool {
        &&& self.start.wf()
        &&& self.still.len() < RTC_SPIN_BUDGET
        &&& forall|i: int|
            0 <= i < self.still.len() ==> (#[trigger] self.still[i]).wf() && self.still[i].tick
                == self.start.tick
        &&& self.moved.wf()
        &&& self.moved.tick != self.start.tick
        &&& self.hot.wf(DEFAULT_POLL_BUDGET, Latch::empty())
        &&& self.cold.wf(DEFAULT_POLL_BUDGET, self.hot.after(Latch::empty()))
        &&& self.load.wf(
            LOADIMAGE_POLL_BUDGET,
            self.cold.after(self.hot.after(Latch::empty())),
        )
    }

    /// The replies.
    pub open spec fn replies(self) -> Seq<Reply> {
        self.start.replies() + readings(self.still) + self.moved.replies() + self.hot.replies()
            + self.cold.replies() + self.load.replies()
    }

    /// The latch after the image load.
    pub open spec fn after(self) -> Latch {
        self.load.after(self.cold.after(self.hot.after(Latch::empty())))
    }
}

proof fn lemma_loading(b: Booting, x: Loading)
    requires
        b.phase == BootPhase::RtcFirst,
        b.latch == Latch::empty(),
        x.wf(),
    ensures
        b.run(x.replies()) == b.at(
            if x.load.returned() < 0 {
                BootPhase::Finished(Err(GnssError::Firmware(x.load.returned())))
            } else {
                BootPhase::StartCpu(Rpc::pm(API_PM_STARTCPU, 1, DEFAULT_POLL_BUDGET))
            },
            x.after(),
        ),
{
    let a1 = x.start.replies();
    let a2 = a1 + readings(x.still);
    let a3 = a2 + x.moved.replies();
    let a4 = a3 + x.hot.replies();
    let a5 = a4 + x.cold.replies();
    lemma_run_concat(b, a5, x.load.replies());
    lemma_run_concat(b, a4, x.cold.replies());
    lemma_run_concat(b, a3, x.hot.replies());
    lemma_run_concat(b, a2, x.moved.replies());
    lemma_run_concat(b, a1, readings(x.still));
    lemma_boot_reads(b, x.start);
    lemma_boot_still(b.run(a1), x.start.tick, x.still);
    lemma_boot_reads(b.run(a2), x.moved);
    lemma_boot_call(
        b.run(a3),
        Rpc::pm(API_PM_SLEEPCPU, PM_SLEEP_HOT_ENABLE, DEFAULT_POLL_BUDGET),
        x.hot,
    );
    lemma_boot_call(
        b.run(a4),
        Rpc::pm(API_PM_SLEEPCPU, PM_SLEEP_COLD, DEFAULT_POLL_BUDGET),
        x.cold,
    );
    lemma_boot_call(
        b.run(a5),
        Rpc::pm(API_PM_LOADIMAGE, b.fw_name, LOADIMAGE_POLL_BUDGET),
        x.load,
    );
}

/// A board whose flash does not hold the image is told apart from a dead transport: whatever the
/// calls that power the core down return, and whatever arrives meanwhile, the boot fails with what
/// the image load returned.
pub proof fn law_missing_image_is_reported(fw_name: u32, info: u32, x: Loading)
    requires
        x.wf(),
        x.load.returned() < 0,
    ensures
        Booting::starting(fw_name, info).run(x.replies()).phase == BootPhase::Finished(
            Err::<u64, GnssError>(GnssError::Firmware(x.load.returned())),
        ),
{
    lemma_loading(Booting::starting(fw_name, info), x);
}

/// What a boot meets up to the start of the wait for the firmware's signal.
pub struct Launching {
    pub loading: Loading,
    /// The call that starts the core.
    pub run: Exchange,
    /// The call that keeps the core from sleeping.
    pub awake: Exchange,
    /// The reading that the deadline counts from.
    pub begun: Reading,
}

impl Launching {
    /// Whether the image is loaded and the core started.
    pub open spec fn wf(self) -> bool {
        &&& self.loading.wf()
        &&& self.loading.load.returned() >= 0
        &&& self.run.wf(DEFAULT_POLL_BUDGET, self.loading.after())
        &&& self.run.returned() >= 0
        &&& self.awake.wf(DEFAULT_POLL_BUDGET, self.run.after(self.loading.after()))
        &&& self.begun.wf()
    }

    /// The replies.
    pub open spec fn replies(self) -> Seq<Reply> {
        self.loading.replies() + self.run.replies() + self.awake.replies() + self.begun.replies()
    }

    /// The latch when the wait begins.
    pub open spec fn after(self) -> Latch {
        self.awake.after(self.run.after(self.loading.after()))
    }

    /// The tick at which the wait is given up: five seconds after it began.
    pub open spec fn deadline(self) -> int {
        self.begun.tick + 163_840
    }
}

proof fn lemma_launching(b: Booting, x: Launching)
    requires
        b.phase == BootPhase::RtcFirst,
        b.latch == Latch::empty(),
        x.wf(),
    ensures
        b.run(x.replies()) == b.at(
            BootPhase::AwaitBootComp(Wait::waiting(x.deadline() as u64, Goal::BootComp)),
            x.after(),
        ),
{
    lemma_loading(b, x.loading);
    let b1 = b.run(x.loading.replies());
    lemma_started(b1, x.run, x.awake, x.begun);
    let rest = x.run.replies() + x.awake.replies() + x.begun.replies();
    assert(x.replies() =~= x.loading.replies() + rest);
    lemma_run_concat(b, x.loading.replies(), rest);
}

proof fn lemma_started(b: Booting, run: Exchange, awake: Exchange, begun: Reading)
    requires
        b.phase == BootPhase::StartCpu(Rpc::pm(API_PM_STARTCPU, 1, DEFAULT_POLL_BUDGET)),
        run.wf(DEFAULT_POLL_BUDGET, b.latch),
        run.returned() >= 0,
        awake.wf(DEFAULT_POLL_BUDGET, run.after(b.latch)),
        begun.wf(),
    ensures
        b.run(run.replies() + awake.replies() + begun.replies()) == b.at(
            BootPhase::AwaitBootComp(
                Wait::waiting((begun.tick + 163_840) as u64, Goal::BootComp),
            ),
            awake.after(run.after(b.latch)),
        ),
{
    let r = Rpc::pm(API_PM_SLEEPCPU, PM_SLEEP_HOT_DISABLE, DEFAULT_POLL_BUDGET);
    let b1 = b.at(BootPhase::HotDisable(r), run.after(b.latch));
    let b2 = b.at(BootPhase::Deadline, awake.after(run.after(b.latch)));
    assert(b.run(run.replies()) == b1) by {
        lemma_boot_call(b, Rpc::pm(API_PM_STARTCPU, 1, DEFAULT_POLL_BUDGET), run);
    }
    assert(b.run(run.replies() + awake.replies()) == b2) by {
        lemma_run_concat(b, run.replies(), awake.replies());
        lemma_boot_call(b1, r, awake);
    }
    lemma_run_concat(b, run.replies() + awake.replies(), begun.replies());
    lemma_boot_reads(b2, begun);
}

proof fn lemma_boot_waits(b: Booting, w: Wait, replies: Seq<Reply>)
    requires
        b.phase == BootPhase::AwaitBootComp(w),
        !w.run(b.latch, replies).0.over(),
    ensures
        b.run(replies) == ({
            let (w1, l1) = w.run(b.latch, replies);
            b.at(BootPhase::AwaitBootComp(w1), l1)
        }),
    decreases replies.len(),
{
    if replies.len() > 0 {
        let before = replies.drop_last();
        let (w1, l1) = w.run(b.latch, before);
        if w1.over() {
            assert(w1.next(l1, replies.last()) == (w1, l1));
        }
        lemma_boot_waits(b, w, before);
    }
}

/// What a boot meets while it waits for the firmware's signal and after that.
pub struct Completing {
    /// The rounds of the wait before the signal is seen.
    pub rounds: Seq<Round>,
    /// The look that finds it.
    pub signal: Traffic,
    /// The reading that the earliest start counts from.
    pub settled: Reading,
    /// The call that registers the block for return values.
    pub register: Exchange,
}

impl Completing {
    /// The latch once the signal is used up.
    pub open spec fn signalled(self, latch: Latch) -> Latch {
        Latch { bootcomp: false, ..self.signal.after(traffic::latch_after(latch, self.rounds)) }
    }

    /// Whether the firmware signals that it finished before a reading of the clock shows the
    /// deadline, and the block is registered.
    pub open spec fn wf(self, deadline: int, latch: Latch) -> bool {
        &&& traffic::goes_on(Goal::BootComp, deadline, latch, self.rounds)
        &&& self.signal.wf(traffic::latch_after(latch, self.rounds))
        &&& traffic::latch_after(latch, self.rounds).bootcomp || traffic::announced(
            self.signal.messages(),
            proto::Event::BootComp,
        )
        &&& self.settled.wf()
        &&& self.register.wf(DEFAULT_POLL_BUDGET, self.signalled(latch))
        &&& self.register.returned() >= 0
    }

    /// The replies.
    pub open spec fn replies(self) -> Seq<Reply> {
        traffic::all_replies(self.rounds) + self.signal.replies() + self.settled.replies()
            + self.register.replies()
    }
}

/// A boot succeeds if the clock moves, the image is loaded, the core starts, the firmware signals
/// that it finished before the clock shows the deadline, and the block is registered; it then gives
/// the tick that is two seconds after the clock reading that follows the signal. What powering the
/// core down before, and keeping it from sleeping after, return does not matter; nor does what else
/// the firmware sends meanwhile, its requests for stored data among it, which are answered; nor how
/// often the FIFO refuses a message within the budgets.
pub proof fn law_boot_succeeds(fw_name: u32, info: u32, x: Launching, y: Completing)
    requires
        x.wf(),
        y.wf(x.deadline(), x.after()),
    ensures
        ({
            let b = Booting::starting(fw_name, info);
            b.run(x.replies() + y.replies()) == b.at(
                BootPhase::Finished(Ok::<u64, GnssError>((y.settled.tick + 65_536) as u64)),
                y.register.after(y.signalled(x.after())),
            )
        }),
{
    let b = Booting::starting(fw_name, info);
    lemma_launching(b, x);
    lemma_completing(b.run(x.replies()), x.deadline() as u64, y);
    lemma_run_concat(b, x.replies(), y.replies());
}

proof fn lemma_completing(b: Booting, deadline: u64, y: Completing)
    requires
        b.phase == BootPhase::AwaitBootComp(Wait::waiting(deadline, Goal::BootComp)),
        y.wf(deadline as int, b.latch),
    ensures
        b.run(y.replies()) == b.at(
            BootPhase::Finished(Ok::<u64, GnssError>((y.settled.tick + 65_536) as u64)),
            y.register.after(y.signalled(b.latch)),
        ),
{
    let waited = traffic::all_replies(y.rounds) + y.signal.replies();
    let b1 = b.at(BootPhase::Settle, y.signalled(b.latch));
    let r = Rpc::gd(API_GD_WRITEBUFFER, [DEV_INFO, 0, b.info, SHARED_INFO_SIZE]);
    let b2 = b.at(
        BootPhase::Register { ready_at: (y.settled.tick + 65_536) as u64, rpc: r },
        b1.latch,
    );
    assert(b.run(waited) == b1) by {
        let w = Wait::waiting(deadline, Goal::BootComp);
        traffic::law_traffic_is_latched(y.signal, traffic::latch_after(b.latch, y.rounds));
        traffic::law_wait_is_met(deadline, Goal::BootComp, b.latch, y.rounds, y.signal);
        lemma_boot_waits(b, w, waited.drop_last());
    }
    assert(b.run(waited + y.settled.replies()) == b2) by {
        lemma_run_concat(b, waited, y.settled.replies());
        lemma_boot_reads(b1, y.settled);
    }
    lemma_run_concat(b, waited + y.settled.replies(), y.register.replies());
    lemma_boot_call(b2, r, y.register);
}

/// Whatever arrives meanwhile: a boot whose firmware does not signal that it finished is given up
/// with the first reading of the clock that shows the deadline, no earlier; it then powers the core
/// down, and whatever that returns, it fails with the timeout.
pub proof fn law_silent_firmware_times_out(
    fw_name: u32,
    info: u32,
    x: Launching,
    rounds: Seq<Round>,
    last: Round,
    hot: Exchange,
    cold: Exchange,
)
    requires
        x.wf(),
        traffic::goes_on(Goal::BootComp, x.deadline(), x.after(), rounds),
        last.wf(Goal::BootComp, traffic::latch_after(x.after(), rounds)),
        last.reading.tick >= x.deadline(),
        hot.wf(
            DEFAULT_POLL_BUDGET,
            last.traffic.after(traffic::latch_after(x.after(), rounds)),
        ),
        cold.wf(
            DEFAULT_POLL_BUDGET,
            hot.after(last.traffic.after(traffic::latch_after(x.after(), rounds))),
        ),
    ensures
        ({
            let b = Booting::starting(fw_name, info);
            let waited = x.replies() + (traffic::all_replies(rounds) + last.replies());
            &&& b.run(waited).phase == (BootPhase::Abandon {
                err: GnssError::BootTimeout,
                off: GpsOff::starting(),
            })
            &&& b.run(waited.drop_last()).phase is AwaitBootComp
            &&& b.run(waited + (hot.replies() + cold.replies())).phase == BootPhase::Finished(
                Err::<u64, GnssError>(GnssError::BootTimeout),
            )
        }),
{
    let b = Booting::starting(fw_name, info);
    let w = Wait::waiting(x.deadline() as u64, Goal::BootComp);
    let waited = traffic::all_replies(rounds) + last.replies();
    let down = hot.replies() + cold.replies();
    let l = last.traffic.after(traffic::latch_after(x.after(), rounds));
    let b1 = b.at(BootPhase::AwaitBootComp(w), x.after());
    let b2 = b.at(BootPhase::Abandon { err: GnssError::BootTimeout, off: GpsOff::starting() }, l);
    assert(b.run(x.replies()) == b1) by {
        lemma_launching(b, x);
    }
    traffic::law_wait_times_out(w.deadline, w.goal, x.after(), rounds, last);
    lemma_boot_waits(b1, w, waited.drop_last());
    lemma_run_concat(b, x.replies(), waited);
    assert((x.replies() + waited).drop_last() =~= x.replies() + waited.drop_last());
    lemma_run_concat(b, x.replies(), waited.drop_last());
    assert(b.run(x.replies() + waited) == b2);
    lemma_boot_gives_up(b2, GnssError::BootTimeout, hot, cold);
    lemma_run_concat(b, x.replies() + waited, down);
}

proof fn lemma_boot_gives_up(b: Booting, err: GnssError, hot: Exchange, cold: Exchange)
    requires
        b.phase == (BootPhase::Abandon { err, off: GpsOff::starting() }),
        hot.wf(DEFAULT_POLL_BUDGET, b.latch),
        cold.wf(DEFAULT_POLL_BUDGET, hot.after(b.latch)),
    ensures
        b.run(hot.replies() + cold.replies()).phase == BootPhase::Finished(
            Err::<u64, GnssError>(err),
        ),
{
    rpc::law_power_down_returns(b.latch, hot, cold);
    let down = hot.replies() + cold.replies();
    lemma_boot_powers_down(b, err, GpsOff::starting(), down.drop_last());
}

proof fn lemma_boot_powers_down(b: Booting, err: GnssError, off: GpsOff, replies: Seq<Reply>)
    requires
        b.phase == (BootPhase::Abandon { err, off }),
        !off.run(b.latch, replies).0.over(),
    ensures
        b.run(replies) == ({
            let (g1, l1) = off.run(b.latch, replies);
            b.at(BootPhase::Abandon { err, off: g1 }, l1)
        }),
    decreases replies.len(),
{
    if replies.len() > 0 {
        lemma_boot_powers_down(b, err, off, replies.drop_last());
    }
}

/// The boot of the positioning engine. [`Boot::finish`] turns it into the driver.
pub struct Boot<'clk> {
    steps: Booting,
    clk: PhantomData<&'clk ()>,
}

impl<'clk> Boot<'clk> {
    /// Where the boot stands.
    pub closed spec fn at(self) -> Booting {
        self.steps
    }

    /// Whether the boot stands where a boot can come to.
    pub open spec fn wf(self) -> bool {
        self.at().wf()
    }

    /// What to do next, or `None` once the boot is over.
    pub fn action(&self) -> (a: Option<Action>)
        ensures
            a == self.at().wants(),
    {
        self.steps.action()
    }

    /// Takes the reply to the last action.
    pub fn step(&mut self, reply: Reply)
        ensures
            final(self).at() == old(self).at().next(reply),
            old(self).wf() ==> final(self).wf(),
    {
        self.steps = self.steps.step(reply);
    }

    /// Whether the boot is over.
    pub fn is_finished(&self) -> (r: bool)
        ensures
            r == (self.at().phase is Finished),
    {
        matches!(self.steps.phase, BootPhase::Finished(_))
    }

    /// Whether the transport is dead.
    pub fn is_poisoned(&self) -> (r: bool)
        ensures
            r == (self.at().phase is Poisoned),
    {
        matches!(self.steps.phase, BootPhase::Poisoned)
    }

    /// Turns a boot that is over into the driver, which stays taken, or into the error, which
    /// frees it.
    pub fn finish(self, slot: &mut Singleton) -> (r: Result<Gnss<'clk, Idle>, GnssError>)
        requires
            self.wf(),
            self.at().phase is Finished,
        ensures
            match self.at().phase {
                BootPhase::Finished(Ok(ready_at)) => {
                    &&& r matches Ok(g)
                    &&& g.wf()
                    &&& g.ready() == ready_at
                    &&& g.pending() == self.at().latch.position
                    &&& *final(slot) == *old(slot)
                },
                BootPhase::Finished(Err(e)) => r == Err::<Gnss<'clk, Idle>, GnssError>(e)
                    && !final(slot).taken,
                _ => false,
            },
    {
        match self.steps.phase {
            BootPhase::Finished(Ok(ready_at)) => Ok(
                Gnss {
                    position_pending: self.steps.latch.position,
                    ready_at,
                    state: PhantomData,
                    clk: PhantomData,
                },
            ),
            BootPhase::Finished(Err(e)) => {
                slot.taken = false;
                Err(e)
            },
            _ => Err(GnssError::BootTimeout),
        }
    }
}

impl<'clk> Gnss<'clk, Idle> {
    /// Starts to load and boot the firmware, unless the driver is taken.
    ///
    /// `fw_name` is the address of the name of the firmware's image, and `info` that of the block
    /// in which the application reports return values. Both must stay valid for good. The clock is
    /// borrowed until the driver is shut down: the firmware moves the tree to the high operating
    /// point, so the tree has to be there already, and has to stay.
    pub fn boot(slot: &mut Singleton, clock: &'clk Clock<Hp>, fw_name: u32, info: u32) -> (r: Result<
        Boot<'clk>,
        GnssError,
    >)
        ensures
            final(slot).taken,
            match r {
                Ok(b) => !old(slot).taken && b.at() == Booting::starting(fw_name, info) && b.wf(),
                Err(e) => old(slot).taken && e == GnssError::Taken,
            },
    {
        if slot.taken {
            return Err(GnssError::Taken);
        }
        slot.taken = true;
        Ok(
            Boot {
                steps: Booting {
                    fw_name,
                    info,
                    latch: Latch::default(),
                    phase: BootPhase::RtcFirst,
                },
                clk: PhantomData,
            },
        )
    }
}

impl Booting {
    /// Whether the call under way is the one that it has to be.
    pub open spec fn calls_as_it_should(self) -> bool {
        match self.phase {
            BootPhase::Purge(off) => off.is_power_down(),
            BootPhase::LoadImage(r) => r.is_call(
                0,
                0,
                92,
                seq![1u32, self.fw_name, 0u32, 0u32],
                50_000_000,
            ),
            BootPhase::StartCpu(r) => r.is_call(
                0,
                0,
                64,
                seq![1u32, 1u32, 0u32, 0u32],
                5_000_000,
            ),
            BootPhase::HotDisable(r) => r.is_call(
                0,
                0,
                72,
                seq![1u32, 8u32, 0u32, 0u32],
                5_000_000,
            ),
            BootPhase::Register { rpc, .. } => rpc.is_call(
                1,
                8,
                148,
                seq![6u32, 0u32, self.info, 32u32],
                5_000_000,
            ),
            BootPhase::Abandon { off, .. } => off.is_power_down(),
            _ => true,
        }
    }
}

/// The calls of a boot, whatever arrives: the core is powered down; its image is loaded by the name
/// at `fw_name`, with function 92; it is started, with function 64; it is kept from sleeping, with
/// function 72 and mode 8; and 32 bytes at `info` are registered as the block 6 for return values,
/// with function 148 of the firmware itself. A boot that fails powers the core down.
pub proof fn law_boot_calls(fw_name: u32, info: u32, replies: Seq<Reply>)
    ensures
        ({
            let b = Booting::starting(fw_name, info).run(replies);
            &&& b.calls_as_it_should()
            &&& b.fw_name == fw_name
            &&& b.info == info
        }),
    decreases replies.len(),
{
    if replies.len() > 0 {
        law_boot_calls(fw_name, info, replies.drop_last());
        let b = Booting::starting(fw_name, info).run(replies.drop_last());
        rpc::law_power_down_calls(Latch::empty(), Seq::empty());
        match b.phase {
            BootPhase::Purge(off) => {
                rpc::lemma_power_down_step(off, b.latch, replies.last());
            },
            BootPhase::Abandon { off, .. } => {
                rpc::lemma_power_down_step(off, b.latch, replies.last());
            },
            _ => {},
        }
        let load = Rpc::pm(API_PM_LOADIMAGE, fw_name, LOADIMAGE_POLL_BUDGET);
        let run = Rpc::pm(API_PM_STARTCPU, 1, DEFAULT_POLL_BUDGET);
        let awake = Rpc::pm(API_PM_SLEEPCPU, PM_SLEEP_HOT_DISABLE, DEFAULT_POLL_BUDGET);
        let register = Rpc::gd(API_GD_WRITEBUFFER, [DEV_INFO, 0, info, SHARED_INFO_SIZE]);
        assert(load.arg@ =~= seq![1u32, fw_name, 0u32, 0u32]);
        assert(run.arg@ =~= seq![1u32, 1u32, 0u32, 0u32]);
        assert(awake.arg@ =~= seq![1u32, 8u32, 0u32, 0u32]);
        assert(register.arg@ =~= seq![6u32, 0u32, info, 32u32]);
    }
}

/// The steps of a boot follow one another: from each of them a boot goes on with the next one, ends,
/// or turns to powering the core down.
pub proof fn law_boot_order(b: Booting, reply: Reply)
    ensures
        ({
            let c = b.next(reply);
            match b.phase {
                BootPhase::RtcFirst => c.phase is RtcFirst || c.phase is RtcMoves,
                BootPhase::RtcMoves { .. } => c.phase is RtcMoves || c.phase is Purge
                    || c.phase is Finished,
                BootPhase::Purge(_) => c.phase is Purge || c.phase is LoadImage
                    || c.phase is Poisoned,
                BootPhase::LoadImage(_) => c.phase is LoadImage || c.phase is StartCpu
                    || c.phase is Finished || c.phase is Poisoned,
                BootPhase::StartCpu(_) => c.phase is StartCpu || c.phase is HotDisable
                    || c.phase is Abandon || c.phase is Poisoned,
                BootPhase::HotDisable(_) => c.phase is HotDisable || c.phase is Deadline
                    || c.phase is Poisoned,
                BootPhase::Deadline => c.phase is Deadline || c.phase is AwaitBootComp,
                BootPhase::AwaitBootComp(_) => c.phase is AwaitBootComp || c.phase is Settle
                    || c.phase is Abandon || c.phase is Poisoned,
                BootPhase::Settle => c.phase is Settle || c.phase is Register,
                BootPhase::Register { .. } => c.phase is Register || c.phase is Finished
                    || c.phase is Abandon || c.phase is Poisoned,
                BootPhase::Abandon { .. } => c.phase is Abandon || c.phase is Finished
                    || c.phase is Poisoned,
                BootPhase::Finished(_) | BootPhase::Poisoned => c == b,
            }
        }),
{
}

/// A boot takes no notice of a reply to something that it did not ask for.
pub proof fn law_boot_takes_only_answers(b: Booting, reply: Reply)
    requires
        b.wf(),
        !icc::answers(b.wants(), reply),
    ensures
        b.next(reply) == b,
{
    match b.phase {
        BootPhase::Purge(off) => {
            rpc::law_calls_take_only_answers(
                Rpc::pm(API_PM_STARTCPU, 1, DEFAULT_POLL_BUDGET),
                off,
                b.latch,
                reply,
            );
            rpc::law_gps_off_progress(off, b.latch, reply);
        },
        BootPhase::Abandon { off, .. } => {
            rpc::law_calls_take_only_answers(
                Rpc::pm(API_PM_STARTCPU, 1, DEFAULT_POLL_BUDGET),
                off,
                b.latch,
                reply,
            );
            rpc::law_gps_off_progress(off, b.latch, reply);
        },
        BootPhase::LoadImage(r) | BootPhase::StartCpu(r) | BootPhase::HotDisable(r) => {
            rpc::law_calls_take_only_answers(r, GpsOff::Poisoned, b.latch, reply);
            rpc::law_rpc_progress(r, b.latch, reply);
        },
        BootPhase::Register { rpc, .. } => {
            rpc::law_calls_take_only_answers(rpc, GpsOff::Poisoned, b.latch, reply);
            rpc::law_rpc_progress(rpc, b.latch, reply);
        },
        BootPhase::AwaitBootComp(w) => {
            latch::law_waits_take_only_answers(
                latch::SigSend::sending(0, 0),
                latch::Service::Finished,
                latch::Settle::Popping,
                w,
                b.latch,
                reply,
                0,
                0,
            );
            latch::law_wait_progress(w, b.latch, reply);
        },
        _ => {},
    }
}

} // verus!
