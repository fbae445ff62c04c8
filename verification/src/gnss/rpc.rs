//! Remote calls of the positioning driver, with the notifications that arrive meanwhile.

use vstd::prelude::*;

use crate::farapi;
use crate::farapi::{
    call_to, Encounter, FarCall, FarapiError, CPUID_SYSIOP, DEFAULT_POLL_BUDGET,
};
use crate::gnss::latch::{Latch, Settle};
use crate::gnss::proto;
use crate::gnss::proto::{as_signed, CPU_GPS};
use crate::gnss::traffic;
use crate::gnss::traffic::Traffic;
use crate::icc;
use crate::icc::{Action, Reply};

verus! {

/// Power management, a module of the system and I/O firmware.
pub const MODID_PM: i32 = 0;

/// Positioning, a module of the positioning firmware.
pub const MODID_GNSS: i32 = 8;

/// Start a core: `(core, wait)`.
pub const API_PM_STARTCPU: i32 = 64;

/// Put a core to sleep: `(core, mode)`.
pub const API_PM_SLEEPCPU: i32 = 72;

/// Load a core's image from flash: `(core, name)`.
pub const API_PM_LOADIMAGE: i32 = 92;

/// Select the satellite systems: `(mask)`.
pub const API_GD_SELECTSATELLITESYSTEM: i32 = 12;

/// Get the satellite systems: `(address of the mask)`.
pub const API_GD_GETSATELLITESYSTEM: i32 = 16;

/// Set the operation mode: `(mode, cycle)`.
pub const API_GD_SETOPERATIONMODE: i32 = 28;

/// Get the operation mode: `(address of the mode, address of the cycle)`.
pub const API_GD_GETOPERATIONMODE: i32 = 32;

/// Read a buffer: `(type, offset, address, length)`. Returns the copied size.
pub const API_GD_READBUFFER: i32 = 144;

/// Write a buffer: `(type, offset, address, length)`.
pub const API_GD_WRITEBUFFER: i32 = 148;

/// Arm a notification: `(type, clear)`.
pub const API_GD_SETNOTIFYMASK: i32 = 152;

/// Sleep mode: power the core down.
pub const PM_SLEEP_COLD: u32 = 2;

/// Sleep mode: let the core sleep with its state.
pub const PM_SLEEP_HOT_ENABLE: u32 = 7;

/// Sleep mode: do not let the core sleep with its state.
pub const PM_SLEEP_HOT_DISABLE: u32 = 8;

/// Why a positioning operation failed.
#[derive(Clone, Copy, Debug, PartialEq, Eq, Structural)]
pub enum GnssError {
    /// The driver is already taken.
    Taken,
    /// The real-time clock is not running.
    RtcNotReady,
    /// The firmware started and never signalled that it finished.
    BootTimeout,
    /// The firmware returned this negative number.
    Firmware(i32),
    /// A start or stop command was not acknowledged in time.
    AckTimeout,
    /// No position notification came in time.
    UpdateTimeout,
}

/// A negative return value is the firmware's error.
pub fn fw_result(ret: i32) -> (r: Result<i32, GnssError>)
    ensures
        r == if ret < 0 {
            Err::<i32, GnssError>(GnssError::Firmware(ret))
        } else {
            Ok(ret)
        },
{
    if ret < 0 {
        Err(GnssError::Firmware(ret))
    } else {
        Ok(ret)
    }
}

/// Where a remote call stands.
#[derive(Clone, Copy, Debug)]
pub enum RpcPhase {
    /// The argument buffer has no address yet.
    Stage,
    Calling(FarCall),
    /// The call is over with `res`, and what arrived meanwhile is being taken care of.
    Settling { res: Result<(), FarapiError>, settle: Settle },
    /// The return value has yet to be read.
    ReadBack,
    /// The firmware returned this.
    Finished(i32),
    /// The transport is dead: the firmware may still use the buffers of this call.
    Poisoned,
}

/// One remote call with four argument words, the first of which becomes the return value.
#[derive(Clone, Copy, Debug)]
pub struct Rpc {
    pub dest_cpu: u32,
    pub modid: i32,
    pub api_id: i32,
    pub arg: [u32; 4],
    pub budget: u32,
    pub phase: RpcPhase,
}

impl Rpc {
    pub open spec fn calling(
        dest_cpu: u32,
        modid: i32,
        api_id: i32,
        arg: [u32; 4],
        budget: u32,
    ) -> Rpc {
        Rpc { dest_cpu, modid, api_id, arg, budget, phase: RpcPhase::Stage }
    }

    /// A call of power management that names the positioning core.
    pub open spec fn pm(api_id: i32, second: u32, budget: u32) -> Rpc {
        Rpc::calling(CPUID_SYSIOP, MODID_PM, api_id, [CPU_GPS, second, 0, 0], budget)
    }

    /// A call of the positioning firmware.
    pub open spec fn gd(api_id: i32, arg: [u32; 4]) -> Rpc {
        Rpc::calling(CPU_GPS, MODID_GNSS, api_id, arg, DEFAULT_POLL_BUDGET)
    }

    pub open spec fn at(self, phase: RpcPhase) -> Rpc {
        Rpc { phase, ..self }
    }

    pub open spec fn wants(self) -> Option<Action> {
        match self.phase {
            RpcPhase::Stage => Some(Action::Stage(self.arg)),
            RpcPhase::Calling(c) => c.wants(),
            RpcPhase::Settling { settle, .. } => settle.wants(),
            RpcPhase::ReadBack => Some(Action::ReadArg),
            RpcPhase::Finished(_) | RpcPhase::Poisoned => None,
        }
    }

    pub open spec fn next(self, latch: Latch, reply: Reply) -> (Rpc, Latch) {
        match (self.phase, reply) {
            (RpcPhase::Stage, Reply::Staged { cpuid, arg }) => (
                self.at(
                    RpcPhase::Calling(
                        FarCall {
                            msg: farapi::block_for(cpuid, self.modid, self.api_id, arg),
                            dest_cpu: self.dest_cpu,
                            budget: self.budget,
                            phase: farapi::Phase::Publish,
                        },
                    ),
                ),
                latch,
            ),
            (RpcPhase::Calling(c), _) => {
                let c2 = c.next(reply);
                match c2.result() {
                    Some(res) => (
                        self.at(RpcPhase::Settling { res, settle: Settle::Popping }),
                        latch,
                    ),
                    None => (self.at(RpcPhase::Calling(c2)), latch),
                }
            },
            (RpcPhase::Settling { res, settle }, _) => {
                let (settle2, latch2) = settle.next(latch, reply);
                if settle2.poisoned() || (settle2.finished() && res is Err) {
                    (self.at(RpcPhase::Poisoned), latch2)
                } else if settle2.finished() {
                    (self.at(RpcPhase::ReadBack), latch2)
                } else {
                    (self.at(RpcPhase::Settling { res, settle: settle2 }), latch2)
                }
            },
            (RpcPhase::ReadBack, Reply::Word(w)) => (
                self.at(RpcPhase::Finished(proto::signed(w) as i32)),
                latch,
            ),
            _ => (self, latch),
        }
    }

    pub open spec fn wf(self) -> bool {
        match self.phase {
            RpcPhase::Calling(c) => c.wf() && c.result() is None,
            RpcPhase::Settling { settle, .. } => settle.wf() && !settle.finished()
                && !settle.poisoned(),
            _ => true,
        }
    }

    /// Starts a remote call.
    pub fn rpc(dest_cpu: u32, modid: i32, api_id: i32, arg: [u32; 4], budget: u32) -> (r: Rpc)
        ensures
            r == Rpc::calling(dest_cpu, modid, api_id, arg, budget),
    {
        Rpc { dest_cpu, modid, api_id, arg, budget, phase: RpcPhase::Stage }
    }

    pub fn action(&self) -> (a: Option<Action>)
        ensures
            a == self.wants(),
    {
        match self.phase {
            RpcPhase::Stage => Some(Action::Stage(self.arg)),
            RpcPhase::Calling(c) => c.action(),
            RpcPhase::Settling { settle, .. } => settle.action(),
            RpcPhase::ReadBack => Some(Action::ReadArg),
            RpcPhase::Finished(_) | RpcPhase::Poisoned => None,
        }
    }

    pub fn step(self, latch: Latch, reply: Reply) -> (r: (Rpc, Latch))
        ensures
            r == self.next(latch, reply),
    {
        match (self.phase, reply) {
            (RpcPhase::Stage, Reply::Staged { cpuid, arg }) => {
                let c = call_to(self.dest_cpu, cpuid, self.modid, self.api_id, arg, self.budget);
                (Rpc { phase: RpcPhase::Calling(c), ..self }, latch)
            },
            (RpcPhase::Calling(c), _) => {
                let c2 = c.step(reply);
                let phase = match c2.outcome() {
                    Some(res) => RpcPhase::Settling { res, settle: Settle::Popping },
                    None => RpcPhase::Calling(c2),
                };
                (Rpc { phase, ..self }, latch)
            },
            (RpcPhase::Settling { res, settle }, _) => {
                let (settle2, latch2) = settle.step(latch, reply);
                let phase = if settle2.is_poisoned() || (settle2.is_finished() && res.is_err()) {
                    RpcPhase::Poisoned
                } else if settle2.is_finished() {
                    RpcPhase::ReadBack
                } else {
                    RpcPhase::Settling { res, settle: settle2 }
                };
                (Rpc { phase, ..self }, latch2)
            },
            (RpcPhase::ReadBack, Reply::Word(w)) => (
                Rpc { phase: RpcPhase::Finished(as_signed(w)), ..self },
                latch,
            ),
            _ => (self, latch),
        }
    }
}

/// The positioning core is being powered down: it is let sleep with its state, whatever that call
/// returns, and then sent to sleep without. The second return value counts.
#[derive(Clone, Copy, Debug)]
pub enum GpsOff {
    HotEnable(Rpc),
    Cold(Rpc),
    Finished(i32),
    Poisoned,
}

impl GpsOff {
    pub open spec fn starting() -> GpsOff {
        GpsOff::HotEnable(Rpc::pm(API_PM_SLEEPCPU, PM_SLEEP_HOT_ENABLE, DEFAULT_POLL_BUDGET))
    }

    pub open spec fn wants(self) -> Option<Action> {
        match self {
            GpsOff::HotEnable(r) | GpsOff::Cold(r) => r.wants(),
            GpsOff::Finished(_) | GpsOff::Poisoned => None,
        }
    }

    pub open spec fn next(self, latch: Latch, reply: Reply) -> (GpsOff, Latch) {
        match self {
            GpsOff::HotEnable(r) => {
                let (r2, latch2) = r.next(latch, reply);
                match r2.phase {
                    RpcPhase::Finished(_) => (
                        GpsOff::Cold(Rpc::pm(API_PM_SLEEPCPU, PM_SLEEP_COLD, DEFAULT_POLL_BUDGET)),
                        latch2,
                    ),
                    RpcPhase::Poisoned => (GpsOff::Poisoned, latch2),
                    _ => (GpsOff::HotEnable(r2), latch2),
                }
            },
            GpsOff::Cold(r) => {
                let (r2, latch2) = r.next(latch, reply);
                match r2.phase {
                    RpcPhase::Finished(ret) => (GpsOff::Finished(ret), latch2),
                    RpcPhase::Poisoned => (GpsOff::Poisoned, latch2),
                    _ => (GpsOff::Cold(r2), latch2),
                }
            },
            GpsOff::Finished(_) | GpsOff::Poisoned => (self, latch),
        }
    }

    pub open spec fn wf(self) -> bool {
        match self {
            GpsOff::HotEnable(r) | GpsOff::Cold(r) => r.wf() && r.wants() is Some,
            _ => true,
        }
    }

    /// Starts to power the positioning core down.
    pub fn gps_cpu_off() -> (r: GpsOff)
        ensures
            r == GpsOff::starting(),
    {
        GpsOff::HotEnable(
            Rpc::rpc(
                CPUID_SYSIOP,
                MODID_PM,
                API_PM_SLEEPCPU,
                [CPU_GPS, PM_SLEEP_HOT_ENABLE, 0, 0],
                DEFAULT_POLL_BUDGET,
            ),
        )
    }

    pub fn action(&self) -> (a: Option<Action>)
        ensures
            a == self.wants(),
    {
        match self {
            GpsOff::HotEnable(r) | GpsOff::Cold(r) => r.action(),
            GpsOff::Finished(_) | GpsOff::Poisoned => None,
        }
    }

    pub fn step(self, latch: Latch, reply: Reply) -> (r: (GpsOff, Latch))
        ensures
            r == self.next(latch, reply),
    {
        match self {
            GpsOff::HotEnable(r) => {
                let (r2, latch2) = r.step(latch, reply);
                match r2.phase {
                    RpcPhase::Finished(_) => (
                        GpsOff::Cold(
                            Rpc::rpc(
                                CPUID_SYSIOP,
                                MODID_PM,
                                API_PM_SLEEPCPU,
                                [CPU_GPS, PM_SLEEP_COLD, 0, 0],
                                DEFAULT_POLL_BUDGET,
                            ),
                        ),
                        latch2,
                    ),
                    RpcPhase::Poisoned => (GpsOff::Poisoned, latch2),
                    _ => (GpsOff::HotEnable(r2), latch2),
                }
            },
            GpsOff::Cold(r) => {
                let (r2, latch2) = r.step(latch, reply);
                match r2.phase {
                    RpcPhase::Finished(ret) => (GpsOff::Finished(ret), latch2),
                    RpcPhase::Poisoned => (GpsOff::Poisoned, latch2),
                    _ => (GpsOff::Cold(r2), latch2),
                }
            },
            GpsOff::Finished(_) | GpsOff::Poisoned => (self, latch),
        }
    }
}

/// A remote call that is under way stays well formed, and asks for something until it is over.
pub proof fn law_rpc_progress(r: Rpc, latch: Latch, reply: Reply)
    requires
        r.wf(),
    ensures
        r.next(latch, reply).0.wf(),
        r.wants() is None <==> (r.phase is Finished || r.phase is Poisoned),
{
    match r.phase {
        RpcPhase::Calling(c) => {
            farapi::law_call_is_bounded(c, reply);
        },
        RpcPhase::Settling { settle: Settle::Serving(s), .. } => {
            crate::gnss::latch::law_service_progress(s, latch, reply);
        },
        _ => {},
    }
}

/// A call that timed out never yields a return value: the transport is dead.
pub proof fn law_timeout_poisons(r: Rpc, settle: Settle, latch: Latch, reply: Reply)
    requires
        r.phase == (RpcPhase::Settling { res: Err(FarapiError::Timeout), settle }),
    ensures
        ({
            let r2 = r.next(latch, reply).0;
            r2.phase is Poisoned || r2.phase matches RpcPhase::Settling { res: Err(_), .. }
        }),
{
}

/// A remote call as its caller sees it, with all that it meets.
pub struct Exchange {
    pub cpuid: u8,
    /// Where the argument buffer stands.
    pub arg: u32,
    /// How the request and its completion go through.
    pub call: Encounter,
    /// The notifications that the call finds once it is completed, and what its answers to the
    /// requests among them meet.
    pub traffic: Traffic,
    /// The first word of the argument buffer after the call.
    pub ret: u32,
}

impl Exchange {
    /// Whether a call with `budget` that begins with `latch` gets through.
    pub open spec fn wf(self, budget: u32, latch: Latch) -> bool {
        self.call.wf(budget) && self.traffic.wf(latch)
    }

    /// What the firmware returns.
    pub open spec fn returned(self) -> i32 {
        proto::signed(self.ret) as i32
    }

    /// The latch after the call.
    pub open spec fn after(self, latch: Latch) -> Latch {
        self.traffic.after(latch)
    }

    /// The replies up to the return value.
    pub open spec fn before_return(self) -> Seq<Reply> {
        seq![Reply::Staged { cpuid: self.cpuid, arg: self.arg }] + self.call.replies() + seq![
            Reply::Done,
        ] + self.traffic.replies()
    }

    /// The replies.
    pub open spec fn replies(self) -> Seq<Reply> {
        self.before_return().push(Reply::Word(self.ret))
    }
}

impl Rpc {
    /// The call and the latch after each of `replies` in turn.
    pub open spec fn run(self, latch: Latch, replies: Seq<Reply>) -> (Rpc, Latch)
        decreases replies.len(),
    {
        if replies.len() == 0 {
            (self, latch)
        } else {
            let (r, l) = self.run(latch, replies.drop_last());
            r.next(l, replies.last())
        }
    }
}

impl Rpc {
    /// Whether the call is over.
    pub open spec fn over(self) -> bool {
        self.phase is Finished || self.phase is Poisoned
    }
}

/// However often the FIFO refuses a message within the budget, whatever else is queued, and
/// whatever arrives meanwhile: a remote call that is completed within its budget returns what the
/// firmware left in the first word of the argument buffer, is over no earlier, and has latched the
/// notifications and answered the requests among them.
pub proof fn law_call_returns(r: Rpc, latch: Latch, x: Exchange, n: int)
    requires
        r.phase == RpcPhase::Stage,
        x.wf(r.budget, latch),
        0 <= n < x.replies().len(),
    ensures
        r.run(latch, x.replies()) == (
            r.at(RpcPhase::Finished(x.returned())),
            x.after(latch),
        ),
        !r.run(latch, x.replies().take(n)).0.over(),
{
    lemma_exchange(r, latch, x);
    assert(x.replies().drop_last() =~= x.before_return());
    let first = x.replies().take(n);
    let second = x.before_return().skip(n);
    assert(first + second =~= x.before_return());
    lemma_rpc_concat(r, latch, first, second);
    let (r1, l1) = r.run(latch, first);
    if r1.over() {
        lemma_over_stays(r1, l1, second);
    }
}

proof fn lemma_over_stays(r: Rpc, latch: Latch, replies: Seq<Reply>)
    requires
        r.over(),
    ensures
        r.run(latch, replies) == (r, latch),
    decreases replies.len(),
{
    if replies.len() > 0 {
        lemma_over_stays(r, latch, replies.drop_last());
    }
}

proof fn lemma_rpc_concat(r: Rpc, latch: Latch, first: Seq<Reply>, second: Seq<Reply>)
    ensures
        r.run(latch, first + second) == ({
            let (r1, l1) = r.run(latch, first);
            r1.run(l1, second)
        }),
    decreases second.len(),
{
    if second.len() == 0 {
        assert(first + second =~= first);
    } else {
        assert((first + second).drop_last() =~= first + second.drop_last());
        lemma_rpc_concat(r, latch, first, second.drop_last());
    }
}

proof fn lemma_rpc_calls(r: Rpc, c: FarCall, latch: Latch, replies: Seq<Reply>)
    requires
        r.phase == RpcPhase::Calling(c),
        c.run(replies).result() is None,
    ensures
        r.run(latch, replies) == (r.at(RpcPhase::Calling(c.run(replies))), latch),
    decreases replies.len(),
{
    if replies.len() > 0 {
        assert(replies.drop_last().push(replies.last()) =~= replies);
        farapi::lemma_run_push(c, replies.drop_last(), replies.last());
        lemma_rpc_calls(r, c, latch, replies.drop_last());
    }
}

proof fn lemma_rpc_settles(r: Rpc, s: Settle, latch: Latch, replies: Seq<Reply>)
    requires
        r.phase == (RpcPhase::Settling { res: Ok(()), settle: s }),
        !s.run(latch, replies).0.over(),
    ensures
        r.run(latch, replies) == ({
            let (s1, l1) = s.run(latch, replies);
            (r.at(RpcPhase::Settling { res: Ok(()), settle: s1 }), l1)
        }),
    decreases replies.len(),
{
    if replies.len() > 0 {
        lemma_rpc_settles(r, s, latch, replies.drop_last());
    }
}

/// A call that gets through, up to its return value.
proof fn lemma_exchange(r: Rpc, latch: Latch, x: Exchange)
    requires
        r.phase == RpcPhase::Stage,
        x.wf(r.budget, latch),
    ensures
        r.run(latch, x.before_return()) == (r.at(RpcPhase::ReadBack), x.after(latch)),
{
    let c = FarCall {
        msg: farapi::block_for(x.cpuid, r.modid, r.api_id, x.arg),
        dest_cpu: r.dest_cpu,
        budget: r.budget,
        phase: farapi::Phase::Publish,
    };
    let staged = seq![Reply::Staged { cpuid: x.cpuid, arg: x.arg }];
    let done = seq![Reply::Done];
    assert(staged.drop_last() =~= Seq::<Reply>::empty());
    assert(done.drop_last() =~= Seq::<Reply>::empty());
    reveal_with_fuel(Rpc::run, 2);
    let r1 = r.at(RpcPhase::Calling(c));
    assert(r.run(latch, staged) == (r1, latch));
    lemma_rpc_concat(r, latch, staged, x.call.replies());
    farapi::law_call_completes(c, x.call);
    lemma_rpc_calls(r1, c, latch, x.call.replies());
    let r2 = r.at(RpcPhase::Calling(c.at(farapi::Phase::Settle)));
    lemma_rpc_concat(r, latch, staged + x.call.replies(), done);
    let r3 = r.at(RpcPhase::Settling { res: Ok(()), settle: Settle::Popping });
    assert(r2.run(latch, done) == (r3, latch));
    let t = x.traffic.replies();
    lemma_rpc_concat(r, latch, staged + x.call.replies() + done, t);
    traffic::law_look_ends(x.traffic, latch);
    lemma_rpc_settles(r3, Settle::Popping, latch, t.drop_last());
}

/// Powering down stays well formed, and asks for something until it is over.
pub proof fn law_gps_off_progress(g: GpsOff, latch: Latch, reply: Reply)
    requires
        g.wf(),
    ensures
        g.next(latch, reply).0.wf(),
        g.wants() is None <==> (g is Finished || g is Poisoned),
{
    match g {
        GpsOff::HotEnable(r) | GpsOff::Cold(r) => {
            law_rpc_progress(r, latch, reply);
            law_rpc_progress(r.next(latch, reply).0, latch, reply);
        },
        _ => {},
    }
}

impl GpsOff {
    /// The way down and the latch after each of `replies` in turn.
    pub open spec fn run(self, latch: Latch, replies: Seq<Reply>) -> (GpsOff, Latch)
        decreases replies.len(),
    {
        if replies.len() == 0 {
            (self, latch)
        } else {
            let (g, l) = self.run(latch, replies.drop_last());
            g.next(l, replies.last())
        }
    }

    /// Whether it is over.
    pub open spec fn over(self) -> bool {
        self is Finished || self is Poisoned
    }

    /// The call that is under way.
    spec fn call(cold: bool, r: Rpc) -> GpsOff {
        if cold {
            GpsOff::Cold(r)
        } else {
            GpsOff::HotEnable(r)
        }
    }
}

proof fn lemma_off_concat(g: GpsOff, latch: Latch, first: Seq<Reply>, second: Seq<Reply>)
    ensures
        g.run(latch, first + second) == ({
            let (g1, l1) = g.run(latch, first);
            g1.run(l1, second)
        }),
    decreases second.len(),
{
    if second.len() == 0 {
        assert(first + second =~= first);
    } else {
        assert((first + second).drop_last() =~= first + second.drop_last());
        lemma_off_concat(g, latch, first, second.drop_last());
    }
}

proof fn lemma_off_calls(cold: bool, r: Rpc, latch: Latch, replies: Seq<Reply>)
    requires
        !r.run(latch, replies).0.over(),
    ensures
        GpsOff::call(cold, r).run(latch, replies) == ({
            let (r1, l1) = r.run(latch, replies);
            (GpsOff::call(cold, r1), l1)
        }),
    decreases replies.len(),
{
    if replies.len() > 0 {
        lemma_off_calls(cold, r, latch, replies.drop_last());
    }
}

/// Whatever the first call returns, and whatever arrives meanwhile: powering the core down returns
/// what the second call returns, and is over no earlier.
pub proof fn law_power_down_returns(latch: Latch, hot: Exchange, cold: Exchange)
    requires
        hot.wf(DEFAULT_POLL_BUDGET, latch),
        cold.wf(DEFAULT_POLL_BUDGET, hot.after(latch)),
    ensures
        ({
            let replies = hot.replies() + cold.replies();
            &&& replies.len() > 0
            &&& GpsOff::starting().run(latch, replies) == (
                GpsOff::Finished(cold.returned()),
                cold.after(hot.after(latch)),
            )
            &&& !GpsOff::starting().run(latch, replies.drop_last()).0.over()
        }),
{
    let r1 = Rpc::pm(API_PM_SLEEPCPU, PM_SLEEP_HOT_ENABLE, DEFAULT_POLL_BUDGET);
    let r2 = Rpc::pm(API_PM_SLEEPCPU, PM_SLEEP_COLD, DEFAULT_POLL_BUDGET);
    let (a, b) = (hot.replies(), cold.replies());
    let l = hot.after(latch);
    law_call_returns(r1, latch, hot, a.len() - 1);
    assert(a.take(a.len() - 1) =~= a.drop_last());
    lemma_off_calls(false, r1, latch, a.drop_last());
    assert(GpsOff::starting().run(latch, a) == (GpsOff::Cold(r2), l));
    law_call_returns(r2, l, cold, b.len() - 1);
    assert(b.take(b.len() - 1) =~= b.drop_last());
    lemma_off_calls(true, r2, l, b.drop_last());
    assert((a + b).drop_last() =~= a + b.drop_last());
    lemma_off_concat(GpsOff::starting(), latch, a, b.drop_last());
}

/// Whether `v` is the word `w`, read as a signed number.
pub open spec fn reads_as(w: u32, v: i32) -> bool {
    v == if w < 0x8000_0000 {
        w as int
    } else {
        w - 0x1_0000_0000
    }
}

/// A remote call is the one that was asked for, whatever arrives while it is under way. It stages
/// the arguments that it was given; the block that it publishes names its module, its function, the
/// buffer that was staged and the core that staged it; the request goes to its core, with its
/// budget; and what it returns is a word that was read back, with its sign.
pub proof fn law_call_is_the_one_asked_for(r: Rpc, latch: Latch, replies: Seq<Reply>)
    requires
        r.phase == RpcPhase::Stage,
    ensures
        ({
            let q = r.run(latch, replies).0;
            &&& q == r.at(q.phase)
            &&& q.phase is Stage ==> q.wants() == Some(Action::Stage(r.arg))
            &&& q.phase matches RpcPhase::Calling(c) ==> {
                &&& c.dest_cpu == r.dest_cpu
                &&& c.budget == r.budget
                &&& c.msg.modid == r.modid
                &&& c.msg.api.id == r.api_id
                &&& c.msg.next == 0
                &&& exists|cpuid: u8, arg: u32| #[trigger]
                    replies.contains(Reply::Staged { cpuid, arg }) && c.msg.cpuid == cpuid
                        && c.msg.api.arg == arg && (cpuid < 127 ==> c.msg.api.flagid == 256 * (cpuid
                        + 1) + 7)
            }
            &&& q.phase matches RpcPhase::Finished(v) ==> exists|w: u32| #[trigger]
                replies.contains(Reply::Word(w)) && reads_as(w, v)
        }),
    decreases replies.len(),
{
    if replies.len() > 0 {
        let before = replies.drop_last();
        let reply = replies.last();
        law_call_is_the_one_asked_for(r, latch, before);
        let (q, l) = r.run(latch, before);
        assert(replies.contains(reply)) by {
            assert(replies[replies.len() - 1] == reply);
        }
        assert forall|x: Reply| before.contains(x) implies replies.contains(x) by {
            let i = choose|i: int| 0 <= i < before.len() && before[i] == x;
            assert(replies[i] == x);
        }
        match (q.phase, reply) {
            (RpcPhase::Stage, Reply::Staged { cpuid, arg }) => {
                assert(replies.contains(Reply::Staged { cpuid, arg }));
            },
            (RpcPhase::Calling(c), _) => {
                let (cpuid, arg) = choose|cpuid: u8, arg: u32| #[trigger]
                    before.contains(Reply::Staged { cpuid, arg }) && c.msg.cpuid == cpuid
                        && c.msg.api.arg == arg && (cpuid < 127 ==> c.msg.api.flagid == 256 * (cpuid
                        + 1) + 7);
                assert(replies.contains(Reply::Staged { cpuid, arg }));
                farapi::law_call_takes_only_answers(c, reply);
            },
            (RpcPhase::Finished(v), _) => {
                let w = choose|w: u32| #[trigger]
                    before.contains(Reply::Word(w)) && reads_as(w, v);
                assert(replies.contains(Reply::Word(w)));
            },
            (RpcPhase::ReadBack, Reply::Word(w)) => {
                assert(replies.contains(Reply::Word(w)));
            },
            _ => {},
        }
    }
}

/// A remote call, and powering the core down, take no notice of a reply to something that they did
/// not ask for.
pub proof fn law_calls_take_only_answers(r: Rpc, g: GpsOff, latch: Latch, reply: Reply)
    ensures
        r.wf() && !icc::answers(r.wants(), reply) ==> r.next(latch, reply) == (r, latch),
        g.wf() && !icc::answers(g.wants(), reply) ==> g.next(latch, reply) == (g, latch),
{
    lemma_rpc_answers(r, latch, reply);
    match g {
        GpsOff::HotEnable(x) | GpsOff::Cold(x) => {
            lemma_rpc_answers(x, latch, reply);
            if g.wf() {
                law_rpc_progress(x, latch, reply);
            }
        },
        _ => {},
    }
}

proof fn lemma_rpc_answers(r: Rpc, latch: Latch, reply: Reply)
    ensures
        r.wf() && !icc::answers(r.wants(), reply) ==> r.next(latch, reply) == (r, latch),
{
    match r.phase {
        RpcPhase::Calling(c) => {
            farapi::law_call_takes_only_answers(c, reply);
        },
        _ => {},
    }
}

impl Rpc {
    /// Whether this is a call of function `api_id` of module `modid` on core `dest_cpu`, with these
    /// arguments and this budget.
    pub open spec fn is_call(
        self,
        dest_cpu: int,
        modid: int,
        api_id: int,
        arg: Seq<u32>,
        budget: int,
    ) -> bool {
        &&& self.dest_cpu == dest_cpu
        &&& self.modid == modid
        &&& self.api_id == api_id
        &&& self.arg@ == arg
        &&& self.budget == budget
    }
}

impl GpsOff {
    /// Whether the call under way is the one that it has to be: function 72 of module 0 on core 0,
    /// for core 1, with mode 7 first and mode 2 then.
    pub open spec fn is_power_down(self) -> bool {
        match self {
            GpsOff::HotEnable(r) => r.is_call(0, 0, 72, seq![1u32, 7u32, 0u32, 0u32], 5_000_000),
            GpsOff::Cold(r) => r.is_call(0, 0, 72, seq![1u32, 2u32, 0u32, 0u32], 5_000_000),
            _ => true,
        }
    }
}

/// Powering the core down makes two calls of power management, for core 1: that it may sleep with
/// its state, and then that it sleeps without.
pub proof fn law_power_down_calls(latch: Latch, replies: Seq<Reply>)
    ensures
        GpsOff::starting().run(latch, replies).0.is_power_down(),
        GpsOff::starting() is HotEnable,
        GpsOff::starting().is_power_down(),
    decreases replies.len(),
{
    let hot = Rpc::pm(API_PM_SLEEPCPU, PM_SLEEP_HOT_ENABLE, DEFAULT_POLL_BUDGET);
    let cold = Rpc::pm(API_PM_SLEEPCPU, PM_SLEEP_COLD, DEFAULT_POLL_BUDGET);
    assert(hot.arg@ =~= seq![1u32, 7u32, 0u32, 0u32]);
    assert(cold.arg@ =~= seq![1u32, 2u32, 0u32, 0u32]);
    if replies.len() > 0 {
        law_power_down_calls(latch, replies.drop_last());
        let (g, l) = GpsOff::starting().run(latch, replies.drop_last());
        lemma_power_down_step(g, l, replies.last());
    }
}

/// Powering down goes on as it has to.
pub(crate) proof fn lemma_power_down_step(g: GpsOff, latch: Latch, reply: Reply)
    requires
        g.is_power_down(),
    ensures
        g.next(latch, reply).0.is_power_down(),
{
    let cold = Rpc::pm(API_PM_SLEEPCPU, PM_SLEEP_COLD, DEFAULT_POLL_BUDGET);
    assert(cold.arg@ =~= seq![1u32, 2u32, 0u32, 0u32]);
}

/// A call of the positioning firmware is one of module 8 on core 1.
pub proof fn law_calls_of_the_firmware(api_id: i32, a: u32, b: u32, c: u32, d: u32)
    ensures
        Rpc::gd(api_id, [a, b, c, d]).is_call(1, 8, api_id as int, seq![a, b, c, d], 5_000_000),
{
    assert(Rpc::gd(api_id, [a, b, c, d]).arg@ =~= seq![a, b, c, d]);
}

} // verus!
