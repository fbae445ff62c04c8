//! Starting and stopping positioning, waiting for epochs, and shutting the firmware down.

use vstd::prelude::*;

use crate::farapi::DEFAULT_POLL_BUDGET;
use crate::gnss::latch;
use crate::gnss::latch::{Goal, Latch, SigPhase, SigSend, Wait, WaitPhase};
use crate::gnss::proto;
use crate::gnss::proto::{
    CPUFIFOAPI_START, CPUFIFOAPI_STOP, CPU_GPS, DEV_BKUPFILE, DEV_CEP, DEV_CPUFIFOAPI, DEV_GNSS,
};
use crate::gnss::rpc;
use crate::gnss::rpc::{
    fw_result, Exchange, GpsOff, Rpc, RpcPhase, API_GD_SETNOTIFYMASK, MODID_GNSS,
};
use crate::gnss::rtc;
use crate::gnss::rtc::{deadline_after_ms, rtc_now};
use crate::gnss::traffic;
use crate::gnss::traffic::{Reading, Round, Traffic};
use crate::gnss::types::StartMode;
use crate::gnss::{Gnss, GnssError, Idle, Running, Singleton, ACK_TIMEOUT_MS, LSW_TCXO_LNA};
use crate::icc;
use crate::icc::{Action, Reply};
use std::marker::PhantomData;

verus! {

/// Where a start or stop command stands.
#[derive(Clone, Copy, Debug)]
pub enum Command {
    Send(SigSend),
    /// The clock has yet to be read for the deadline of the acknowledgement.
    Deadline,
    Await(Wait),
    /// The acknowledgement came and is latched, or its time is over.
    Finished,
    Poisoned,
}

/// The payload of a start command.
pub open spec fn start_data(mode: StartMode) -> u32 {
    (mode.spec_code() * 256 + CPUFIFOAPI_START) as u32
}

/// What a command comes to, given the acknowledgement that was latched.
pub open spec fn command_result(latch: Latch) -> Result<(), GnssError> {
    match latch.cpufifo_ret {
        Some(ret) => if ret < 0 {
            Err(GnssError::Firmware(ret))
        } else {
            Ok(())
        },
        None => Err(GnssError::AckTimeout),
    }
}

fn command_outcome(latch: &Latch) -> (r: Result<(), GnssError>)
    ensures
        r == command_result(*latch),
{
    match latch.cpufifo_ret {
        Some(ret) => if ret < 0 {
            Err(GnssError::Firmware(ret))
        } else {
            Ok(())
        },
        None => Err(GnssError::AckTimeout),
    }
}

impl Command {
    pub open spec fn sending(data: u32) -> Command {
        Command::Send(SigSend::sending(DEV_CPUFIFOAPI, data))
    }

    pub open spec fn wants(self) -> Option<Action> {
        match self {
            Command::Send(s) => s.wants(),
            Command::Deadline => Some(Action::ReadRtc),
            Command::Await(w) => w.wants(),
            Command::Finished | Command::Poisoned => None,
        }
    }

    pub open spec fn next(self, latch: Latch, reply: Reply) -> (Command, Latch) {
        match (self, reply) {
            (Command::Send(s), _) => {
                let (s2, latch2) = s.next(latch, reply);
                match s2.phase {
                    SigPhase::Sent => (Command::Deadline, latch2),
                    SigPhase::Jammed => (Command::Poisoned, latch2),
                    _ => (Command::Send(s2), latch2),
                }
            },
            (Command::Deadline, Reply::Rtc { hi, lo, again }) => match rtc::ticks(hi, lo, again) {
                Some(now) => (
                    Command::Await(
                        Wait::waiting(
                            (now + rtc::ticks_in_ms(ACK_TIMEOUT_MS)) as u64,
                            Goal::Ack,
                        ),
                    ),
                    latch,
                ),
                None => (self, latch),
            },
            (Command::Await(w), _) => {
                let (w2, latch2) = w.next(latch, reply);
                match w2.phase {
                    WaitPhase::Finished(_) => (Command::Finished, latch2),
                    WaitPhase::Poisoned => (Command::Poisoned, latch2),
                    _ => (Command::Await(w2), latch2),
                }
            },
            _ => (self, latch),
        }
    }

    pub open spec fn wf(self) -> bool {
        match self {
            Command::Send(s) => s.wants() is Some,
            Command::Await(w) => w.wf() && w.wants() is Some,
            _ => true,
        }
    }

    pub fn action(&self) -> (a: Option<Action>)
        ensures
            a == self.wants(),
    {
        match self {
            Command::Send(s) => s.action(),
            Command::Deadline => Some(Action::ReadRtc),
            Command::Await(w) => w.action(),
            Command::Finished | Command::Poisoned => None,
        }
    }

    pub fn step(self, latch: Latch, reply: Reply) -> (r: (Command, Latch))
        ensures
            r == self.next(latch, reply),
    {
        match (self, reply) {
            (Command::Send(s), _) => {
                let (s2, latch2) = s.step(latch, reply);
                match s2.phase {
                    SigPhase::Sent => (Command::Deadline, latch2),
                    SigPhase::Jammed => (Command::Poisoned, latch2),
                    _ => (Command::Send(s2), latch2),
                }
            },
            (Command::Deadline, Reply::Rtc { hi, lo, again }) => match rtc_now(hi, lo, again) {
                Some(now) => {
                    let deadline: u64 = deadline_after_ms(now, ACK_TIMEOUT_MS);
                    (Command::Await(Wait::wait_until(deadline, Goal::Ack)), latch)
                },
                None => (self, latch),
            },
            (Command::Await(w), _) => {
                let (w2, latch2) = w.step(latch, reply);
                match w2.phase {
                    WaitPhase::Finished(_) => (Command::Finished, latch2),
                    WaitPhase::Poisoned => (Command::Poisoned, latch2),
                    _ => (Command::Await(w2), latch2),
                }
            },
            _ => (self, latch),
        }
    }
}

/// A command that is under way stays well formed, and asks for something until it is over.
pub proof fn law_command_progress(c: Command, latch: Latch, reply: Reply)
    requires
        c.wf(),
    ensures
        c.next(latch, reply).0.wf(),
        c.wants() is None <==> (c is Finished || c is Poisoned),
{
    if let Command::Await(w) = c {
        latch::law_wait_progress(w, latch, reply);
        latch::law_wait_progress(w.next(latch, reply).0, latch, reply);
    }
}

impl Command {
    /// The command and the latch after each of `replies` in turn.
    pub open spec fn run(self, latch: Latch, replies: Seq<Reply>) -> (Command, Latch)
        decreases replies.len(),
    {
        if replies.len() == 0 {
            (self, latch)
        } else {
            let (c, l) = self.run(latch, replies.drop_last());
            c.next(l, replies.last())
        }
    }

    /// Whether the command is over.
    pub open spec fn over(self) -> bool {
        self is Finished || self is Poisoned
    }
}

proof fn lemma_command_concat(c: Command, latch: Latch, first: Seq<Reply>, second: Seq<Reply>)
    ensures
        c.run(latch, first + second) == ({
            let (c1, l1) = c.run(latch, first);
            c1.run(l1, second)
        }),
    decreases second.len(),
{
    if second.len() == 0 {
        assert(first + second =~= first);
    } else {
        assert((first + second).drop_last() =~= first + second.drop_last());
        lemma_command_concat(c, latch, first, second.drop_last());
    }
}

proof fn lemma_command_pushes(s: SigSend, latch: Latch, replies: Seq<Reply>)
    requires
        s.run(latch, replies).0.wants() is Some,
    ensures
        Command::Send(s).run(latch, replies) == ({
            let (s1, l1) = s.run(latch, replies);
            (Command::Send(s1), l1)
        }),
    decreases replies.len(),
{
    if replies.len() > 0 {
        lemma_command_pushes(s, latch, replies.drop_last());
    }
}

proof fn lemma_command_reads(latch: Latch, torn: Seq<Reply>)
    requires
        forall|i: int| 0 <= i < torn.len() ==> rtc::is_torn(#[trigger] torn[i]),
    ensures
        Command::Deadline.run(latch, torn) == (Command::Deadline, latch),
    decreases torn.len(),
{
    if torn.len() > 0 {
        lemma_command_reads(latch, torn.drop_last());
        assert(rtc::is_torn(torn[torn.len() - 1]));
    }
}

proof fn lemma_command_waits(w: Wait, latch: Latch, replies: Seq<Reply>)
    requires
        !w.run(latch, replies).0.over(),
    ensures
        Command::Await(w).run(latch, replies) == ({
            let (w1, l1) = w.run(latch, replies);
            (Command::Await(w1), l1)
        }),
    decreases replies.len(),
{
    if replies.len() > 0 {
        let before = replies.drop_last();
        let (w1, l1) = w.run(latch, before);
        if w1.over() {
            assert(w1.next(l1, replies.last()) == (w1, l1));
        }
        lemma_command_waits(w, latch, before);
    }
}

/// What a command meets before the look or the clock reading that ends it.
pub struct Commanding {
    /// What is looked at after each refusal of the signal.
    pub got: Seq<Option<[u32; 2]>>,
    /// The reading that the deadline counts from.
    pub begun: Reading,
    /// The rounds of the wait that do not end it.
    pub rounds: Seq<Round>,
}

impl Commanding {
    /// The tick at which the acknowledgement is no longer waited for: five seconds after the wait
    /// began.
    pub open spec fn deadline(self) -> int {
        self.begun.tick + 163_840
    }

    /// The latch once the signal is sent.
    pub open spec fn sent(self, latch: Latch) -> Latch {
        traffic::heard(latch, traffic::said(self.got))
    }

    /// Whether the signal gets through, and nothing ends the wait so far.
    pub open spec fn wf(self, latch: Latch) -> bool {
        &&& self.got.len() < latch::SIG_PUSH_BUDGET
        &&& self.begun.wf()
        &&& traffic::goes_on(Goal::Ack, self.deadline(), self.sent(latch), self.rounds)
    }

    /// The replies.
    pub open spec fn replies(self) -> Seq<Reply> {
        traffic::pushing(self.got) + self.begun.replies() + traffic::all_replies(self.rounds)
    }

    /// The latch so far.
    pub open spec fn after(self, latch: Latch) -> Latch {
        traffic::latch_after(self.sent(latch), self.rounds)
    }
}

proof fn lemma_command_sent(data: u32, latch: Latch, x: Commanding)
    requires
        x.wf(latch),
    ensures
        Command::sending(data).run(latch, traffic::pushing(x.got) + x.begun.replies()) == (
            Command::Await(Wait::waiting(x.deadline() as u64, Goal::Ack)),
            x.sent(latch),
        ),
{
    let c = Command::sending(data);
    let s = SigSend::sending(DEV_CPUFIFOAPI, data);
    let l = x.sent(latch);
    traffic::law_signal_is_sent(DEV_CPUFIFOAPI, data, latch, x.got);
    lemma_command_pushes(s, latch, traffic::pushing(x.got).drop_last());
    assert(c.run(latch, traffic::pushing(x.got)) == (Command::Deadline, l));
    lemma_command_concat(c, latch, traffic::pushing(x.got), x.begun.replies());
    lemma_command_reads(l, x.begun.torn);
    assert(x.begun.replies().drop_last() =~= x.begun.torn);
}

proof fn lemma_command_awaits(data: u32, latch: Latch, x: Commanding, end: Seq<Reply>)
    requires
        x.wf(latch),
        ({
            let w = Wait::waiting(x.deadline() as u64, Goal::Ack);
            let waited = traffic::all_replies(x.rounds) + end;
            let l = x.sent(latch);
            &&& waited.len() > 0
            &&& w.run(l, waited).0.phase is Finished
            &&& !w.run(l, waited.drop_last()).0.over()
        }),
    ensures
        ({
            let w = Wait::waiting(x.deadline() as u64, Goal::Ack);
            let waited = traffic::all_replies(x.rounds) + end;
            let c = Command::sending(data);
            let replies = x.replies() + end;
            &&& replies.len() > 0
            &&& c.run(latch, replies) == (
                Command::Finished,
                w.run(x.sent(latch), waited).1,
            )
            &&& !c.run(latch, replies.drop_last()).0.over()
        }),
{
    let w = Wait::waiting(x.deadline() as u64, Goal::Ack);
    let waited = traffic::all_replies(x.rounds) + end;
    let l = x.sent(latch);
    let c = Command::sending(data);
    let sent = traffic::pushing(x.got) + x.begun.replies();
    lemma_command_sent(data, latch, x);
    lemma_command_waits(w, l, waited.drop_last());
    assert(x.replies() + end =~= sent + waited);
    lemma_command_concat(c, latch, sent, waited);
    assert((sent + waited).drop_last() =~= sent + waited.drop_last());
    lemma_command_concat(c, latch, sent, waited.drop_last());
}

/// However often the signal is refused within the budget, and whatever else arrives meanwhile: a
/// command whose acknowledgement is seen before the clock shows the deadline is over with the look
/// that finds it, no earlier, and comes to what the firmware returned last.
pub proof fn law_command_is_acknowledged(
    data: u32,
    latch: Latch,
    x: Commanding,
    last: Traffic,
    code: i32,
)
    requires
        x.wf(latch),
        last.wf(x.after(latch)),
        traffic::last_ack(x.after(latch).cpufifo_ret, last.messages()) == Some(code),
    ensures
        ({
            let replies = x.replies() + last.replies();
            let (c, l) = Command::sending(data).run(latch, replies);
            &&& c == Command::Finished
            &&& l == last.after(x.after(latch))
            &&& command_result(l) == if code < 0 {
                Err::<(), GnssError>(GnssError::Firmware(code))
            } else {
                Ok(())
            }
            &&& !Command::sending(data).run(latch, replies.drop_last()).0.over()
        }),
{
    traffic::law_traffic_is_latched(last, x.after(latch));
    traffic::law_wait_is_met(
        x.deadline() as u64,
        Goal::Ack,
        x.sent(latch),
        x.rounds,
        last,
    );
    lemma_command_awaits(data, latch, x, last.replies());
}

/// However often the signal is refused within the budget, and whatever else arrives meanwhile: a
/// command without an acknowledgement is over with the first reading of the clock that shows the
/// deadline, no earlier, and counts as not acknowledged.
pub proof fn law_command_times_out(data: u32, latch: Latch, x: Commanding, last: Round)
    requires
        x.wf(latch),
        last.wf(Goal::Ack, x.after(latch)),
        last.reading.tick >= x.deadline(),
    ensures
        ({
            let replies = x.replies() + last.replies();
            let (c, l) = Command::sending(data).run(latch, replies);
            &&& c == Command::Finished
            &&& l == last.traffic.after(x.after(latch))
            &&& command_result(l) == Err::<(), GnssError>(GnssError::AckTimeout)
            &&& !Command::sending(data).run(latch, replies.drop_last()).0.over()
        }),
{
    traffic::law_wait_times_out(
        x.deadline() as u64,
        Goal::Ack,
        x.sent(latch),
        x.rounds,
        last,
    );
    lemma_command_awaits(data, latch, x, last.replies());
}

/// Where the start of positioning stands.
#[derive(Clone, Copy, Debug)]
pub enum StartPhase {
    /// The firmware is given the time that it needs after its boot.
    Hold(Wait),
    /// The rail has yet to be switched on.
    Rail,
    Command(Command),
    Poisoned,
}

/// The start of positioning.
#[derive(Clone, Copy, Debug)]
pub struct Starting {
    pub ready_at: u64,
    pub mode: StartMode,
    pub latch: Latch,
    pub phase: StartPhase,
}

impl Starting {
    pub open spec fn starting(ready_at: u64, mode: StartMode) -> Starting {
        Starting {
            ready_at,
            mode,
            latch: Latch::empty(),
            phase: StartPhase::Hold(Wait::waiting(ready_at, Goal::Never)),
        }
    }

    pub open spec fn at(self, phase: StartPhase, latch: Latch) -> Starting {
        Starting { phase, latch, ..self }
    }

    pub open spec fn wants(self) -> Option<Action> {
        match self.phase {
            StartPhase::Hold(w) => w.wants(),
            StartPhase::Rail => Some(Action::SetLoadswitch { channel: LSW_TCXO_LNA, on: true }),
            StartPhase::Command(c) => c.wants(),
            StartPhase::Poisoned => None,
        }
    }

    pub open spec fn next(self, reply: Reply) -> Starting {
        match (self.phase, reply) {
            (StartPhase::Hold(w), _) => {
                let (w2, latch) = w.next(self.latch, reply);
                match w2.phase {
                    WaitPhase::Finished(_) => self.at(StartPhase::Rail, latch),
                    WaitPhase::Poisoned => self.at(StartPhase::Poisoned, latch),
                    _ => self.at(StartPhase::Hold(w2), latch),
                }
            },
            (StartPhase::Rail, Reply::Switched(done)) => self.at(
                if done {
                    StartPhase::Command(Command::sending(start_data(self.mode)))
                } else {
                    StartPhase::Poisoned
                },
                self.latch,
            ),
            (StartPhase::Command(c), _) => {
                let (c2, latch) = c.next(self.latch, reply);
                self.at(
                    if c2 is Poisoned {
                        StartPhase::Poisoned
                    } else {
                        StartPhase::Command(c2)
                    },
                    latch,
                )
            },
            _ => self,
        }
    }

    /// The start after each of `replies` in turn.
    pub open spec fn run(self, replies: Seq<Reply>) -> Starting
        decreases replies.len(),
    {
        if replies.len() == 0 {
            self
        } else {
            self.run(replies.drop_last()).next(replies.last())
        }
    }

    pub open spec fn finished(self) -> bool {
        self.phase == StartPhase::Command(Command::Finished)
    }

    pub open spec fn wf(self) -> bool {
        match self.phase {
            StartPhase::Hold(w) => w.wf() && w.wants() is Some && w.deadline == self.ready_at
                && w.goal == Goal::Never,
            StartPhase::Command(c) => c.wf() && !(c is Poisoned),
            _ => true,
        }
    }

    pub fn action(&self) -> (a: Option<Action>)
        ensures
            a == self.wants(),
    {
        match self.phase {
            StartPhase::Hold(w) => w.action(),
            StartPhase::Rail => Some(Action::SetLoadswitch { channel: LSW_TCXO_LNA, on: true }),
            StartPhase::Command(c) => c.action(),
            StartPhase::Poisoned => None,
        }
    }

    pub fn step(self, reply: Reply) -> (r: Starting)
        ensures
            r == self.next(reply),
            self.wf() ==> r.wf(),
    {
        proof {
            law_start_progress(self, reply);
        }
        match (self.phase, reply) {
            (StartPhase::Hold(w), _) => {
                let (w2, latch) = w.step(self.latch, reply);
                let phase = match w2.phase {
                    WaitPhase::Finished(_) => StartPhase::Rail,
                    WaitPhase::Poisoned => StartPhase::Poisoned,
                    _ => StartPhase::Hold(w2),
                };
                Starting { phase, latch, ..self }
            },
            (StartPhase::Rail, Reply::Switched(done)) => {
                let phase = if done {
                    let code: u32 = self.mode.code();
                    proof {
                        assert((code << 8) | 0 == code * 256) by (bit_vector)
                            requires
                                code <= 3,
                        ;
                    }
                    StartPhase::Command(
                        Command::Send(
                            SigSend::send_sig(DEV_CPUFIFOAPI, (code << 8) | CPUFIFOAPI_START),
                        ),
                    )
                } else {
                    StartPhase::Poisoned
                };
                Starting { phase, ..self }
            },
            (StartPhase::Command(c), _) => {
                let (c2, latch) = c.step(self.latch, reply);
                let phase = match c2 {
                    Command::Poisoned => StartPhase::Poisoned,
                    _ => StartPhase::Command(c2),
                };
                Starting { phase, latch, ..self }
            },
            _ => self,
        }
    }
}

/// A start that is under way stays well formed, and asks for something until it is over.
pub proof fn law_start_progress(s: Starting, reply: Reply)
    ensures
        s.wf() ==> s.next(reply).wf(),
        s.wf() ==> (s.wants() is None <==> (s.finished() || s.phase is Poisoned)),
{
    if s.wf() {
        match s.phase {
            StartPhase::Hold(w) => {
                latch::law_wait_progress(w, s.latch, reply);
                latch::law_wait_progress(w.next(s.latch, reply).0, s.latch, reply);
            },
            StartPhase::Command(c) => {
                law_command_progress(c, s.latch, reply);
            },
            _ => {},
        }
    }
}

/// Whether some reply is a clock reading at or past `tick`.
pub open spec fn clock_reached(replies: Seq<Reply>, tick: u64) -> bool {
    exists|i: int|
        #![trigger replies[i]]
        0 <= i < replies.len() && {
            &&& replies[i] matches Reply::Rtc { hi, lo, again }
            &&& rtc::ticks(hi, lo, again) matches Some(now)
            &&& now >= tick
        }
}

/// The start command is not pushed, and the rail not touched, before the clock was read at or past
/// the tick from which the firmware may be started.
pub proof fn law_start_waits_for_settling(ready_at: u64, mode: StartMode, replies: Seq<Reply>)
    ensures
        ({
            let s = Starting::starting(ready_at, mode).run(replies);
            &&& (s.wants() matches Some(Action::Push(w)) && w == proto::signal(
                DEV_CPUFIFOAPI,
                start_data(mode),
            )) ==> clock_reached(replies, ready_at)
            &&& s.wants() is Some && s.wants()->0 is SetLoadswitch ==> clock_reached(
                replies,
                ready_at,
            )
        }),
{
    lemma_start_history(ready_at, mode, replies);
    let s = Starting::starting(ready_at, mode).run(replies);
    if let StartPhase::Hold(w) = s.phase {
        lemma_wait_pushes(w);
        assert(icc::msgid_of(proto::signal(DEV_BKUPFILE, 0)[0]) == DEV_BKUPFILE);
        assert(icc::msgid_of(proto::signal(DEV_CEP, 0)[0]) == DEV_CEP);
        assert(icc::msgid_of(proto::signal(DEV_CPUFIFOAPI, start_data(mode))[0])
            == DEV_CPUFIFOAPI);
    }
}

/// Whether the signals in hand of a wait are the terminators that answer a request.
spec fn answers_only(w: Wait) -> bool {
    match w.phase {
        WaitPhase::Settling(latch::Settle::Serving(latch::Service::BackupSignal(s))) => s.words
            == proto::signal(DEV_BKUPFILE, 0),
        WaitPhase::Settling(latch::Settle::Serving(latch::Service::CepSignal(s))) => s.words
            == proto::signal(DEV_CEP, 0),
        _ => true,
    }
}

proof fn lemma_wait_pushes(w: Wait)
    requires
        answers_only(w),
    ensures
        w.wants() matches Some(Action::Push(words)) ==> words == proto::signal(DEV_BKUPFILE, 0)
            || words == proto::signal(DEV_CEP, 0),
        w.wants() is Some ==> !(w.wants()->0 is SetLoadswitch),
{
}

proof fn lemma_start_history(ready_at: u64, mode: StartMode, replies: Seq<Reply>)
    ensures
        ({
            let s = Starting::starting(ready_at, mode).run(replies);
            &&& s.wf()
            &&& s.ready_at == ready_at
            &&& s.mode == mode
            &&& s.phase matches StartPhase::Hold(w) ==> answers_only(w)
            &&& s.phase is Hold || s.phase is Poisoned || clock_reached(replies, ready_at)
        }),
    decreases replies.len(),
{
    if replies.len() > 0 {
        let before = replies.drop_last();
        let reply = replies.last();
        lemma_start_history(ready_at, mode, before);
        let s = Starting::starting(ready_at, mode).run(before);
        law_start_progress(s, reply);
        if let StartPhase::Hold(w) = s.phase {
            latch::law_wait_outcome(w, s.latch, reply);
            assert(replies[replies.len() - 1] == reply);
        }
        if clock_reached(before, ready_at) {
            let i = choose|i: int|
                #![trigger before[i]]
                0 <= i < before.len() && {
                    &&& before[i] matches Reply::Rtc { hi, lo, again }
                    &&& rtc::ticks(hi, lo, again) matches Some(now)
                    &&& now >= ready_at
                };
            assert(replies[i] == before[i]);
        }
    }
}

proof fn lemma_start_concat(s: Starting, first: Seq<Reply>, second: Seq<Reply>)
    ensures
        s.run(first + second) == s.run(first).run(second),
    decreases second.len(),
{
    if second.len() == 0 {
        assert(first + second =~= first);
    } else {
        assert((first + second).drop_last() =~= first + second.drop_last());
        lemma_start_concat(s, first, second.drop_last());
    }
}

proof fn lemma_start_holds(s: Starting, w: Wait, replies: Seq<Reply>)
    requires
        s.phase == StartPhase::Hold(w),
        !w.run(s.latch, replies).0.over(),
    ensures
        s.run(replies) == ({
            let (w1, l1) = w.run(s.latch, replies);
            s.at(StartPhase::Hold(w1), l1)
        }),
    decreases replies.len(),
{
    if replies.len() > 0 {
        let before = replies.drop_last();
        let (w1, l1) = w.run(s.latch, before);
        if w1.over() {
            assert(w1.next(l1, replies.last()) == (w1, l1));
        }
        lemma_start_holds(s, w, before);
    }
}

proof fn lemma_start_commands(s: Starting, c: Command, replies: Seq<Reply>)
    requires
        s.phase == StartPhase::Command(c),
        !(c.run(s.latch, replies).0 is Poisoned),
    ensures
        s.run(replies) == ({
            let (c1, l1) = c.run(s.latch, replies);
            s.at(StartPhase::Command(c1), l1)
        }),
    decreases replies.len(),
{
    if replies.len() > 0 {
        lemma_start_commands(s, c, replies.drop_last());
    }
}

/// What a start meets until the firmware has settled.
pub struct Holding {
    /// The rounds in which it has not.
    pub rounds: Seq<Round>,
    /// The round in which it has.
    pub last: Round,
}

impl Holding {
    /// Whether the last reading of the clock, and no earlier one, shows `ready_at` or a later tick.
    pub open spec fn wf(self, ready_at: u64) -> bool {
        &&& traffic::goes_on(Goal::Never, ready_at as int, Latch::empty(), self.rounds)
        &&& self.last.wf(Goal::Never, traffic::latch_after(Latch::empty(), self.rounds))
        &&& self.last.reading.tick >= ready_at
    }

    /// The replies.
    pub open spec fn replies(self) -> Seq<Reply> {
        traffic::all_replies(self.rounds) + self.last.replies()
    }

    /// The latch after that.
    pub open spec fn after(self) -> Latch {
        self.last.traffic.after(traffic::latch_after(Latch::empty(), self.rounds))
    }
}

/// Whatever arrives meanwhile: a start waits until the clock shows that the firmware has settled,
/// then switches the rail on, and then sends the start command of its mode.
pub proof fn law_settled_start_goes_out(ready_at: u64, mode: StartMode, x: Holding)
    requires
        x.wf(ready_at),
    ensures
        ({
            let s0 = Starting::starting(ready_at, mode);
            let s1 = s0.run(x.replies());
            let s2 = s1.next(Reply::Switched(true));
            &&& x.replies().len() > 0
            &&& s0.run(x.replies().drop_last()).phase is Hold
            &&& s1.wants() == Some(Action::SetLoadswitch { channel: LSW_TCXO_LNA, on: true })
            &&& s2.wants() == Some(Action::Push(proto::signal(DEV_CPUFIFOAPI, start_data(mode))))
            &&& s2 == s0.at(
                StartPhase::Command(Command::sending(start_data(mode))),
                x.after(),
            )
        }),
{
    let s0 = Starting::starting(ready_at, mode);
    let w = Wait::waiting(ready_at, Goal::Never);
    traffic::law_wait_times_out(ready_at, Goal::Never, Latch::empty(), x.rounds, x.last);
    lemma_start_holds(s0, w, x.replies().drop_last());
}

/// Whatever arrives meanwhile, and however often the command is refused within the budget: a start
/// whose command is acknowledged in time is over, and comes to what the firmware returned.
pub proof fn law_start_is_acknowledged(
    ready_at: u64,
    mode: StartMode,
    x: Holding,
    y: Commanding,
    last: Traffic,
    code: i32,
)
    requires
        x.wf(ready_at),
        y.wf(x.after()),
        last.wf(y.after(x.after())),
        traffic::last_ack(y.after(x.after()).cpufifo_ret, last.messages()) == Some(code),
    ensures
        ({
            let s = Starting::starting(ready_at, mode).run(
                x.replies() + seq![Reply::Switched(true)] + y.replies() + last.replies(),
            );
            &&& s.finished()
            &&& command_result(s.latch) == if code < 0 {
                Err::<(), GnssError>(GnssError::Firmware(code))
            } else {
                Ok(())
            }
        }),
{
    let s = Starting::starting(ready_at, mode);
    let on = seq![Reply::Switched(true)];
    let end = y.replies() + last.replies();
    let c = Command::sending(start_data(mode));
    let s2 = s.at(StartPhase::Command(c), x.after());
    assert(s.run(x.replies() + on) == s2) by {
        law_settled_start_goes_out(ready_at, mode, x);
        lemma_start_concat(s, x.replies(), on);
        assert(on.drop_last() =~= Seq::<Reply>::empty());
        reveal_with_fuel(Starting::run, 2);
    }
    assert(x.replies() + on + y.replies() + last.replies() =~= x.replies() + on + end);
    lemma_start_concat(s, x.replies() + on, end);
    lemma_start_command(s2, start_data(mode), y, last, code);
}

proof fn lemma_start_command(s: Starting, data: u32, y: Commanding, last: Traffic, code: i32)
    requires
        s.phase == StartPhase::Command(Command::sending(data)),
        y.wf(s.latch),
        last.wf(y.after(s.latch)),
        traffic::last_ack(y.after(s.latch).cpufifo_ret, last.messages()) == Some(code),
    ensures
        ({
            let s2 = s.run(y.replies() + last.replies());
            &&& s2.finished()
            &&& command_result(s2.latch) == if code < 0 {
                Err::<(), GnssError>(GnssError::Firmware(code))
            } else {
                Ok(())
            }
        }),
{
    law_command_is_acknowledged(data, s.latch, y, last, code);
    lemma_start_commands(s, Command::sending(data), y.replies() + last.replies());
}

/// The rail is only ever switched on, and no other load switch is touched.
pub proof fn law_rail_is_never_dropped(s: Starting)
    ensures
        s.wants() matches Some(Action::SetLoadswitch { channel, on }) ==> on && channel
            == LSW_TCXO_LNA,
{
    match s.phase {
        StartPhase::Hold(w) => {},
        StartPhase::Command(c) => {},
        _ => {},
    }
}

/// The start of positioning. [`Start::finish`] turns it into the running driver.
pub struct Start<'clk> {
    gnss: Gnss<'clk, Idle>,
    steps: Starting,
}

impl<'clk> Start<'clk> {
    /// The driver that is being started.
    pub closed spec fn driver(self) -> Gnss<'clk, Idle> {
        self.gnss
    }

    /// Where the start stands.
    pub closed spec fn at(self) -> Starting {
        self.steps
    }

    /// What to do next, or `None` once the start is over.
    pub fn action(&self) -> (a: Option<Action>)
        ensures
            a == self.at().wants(),
    {
        self.steps.action()
    }

    /// Takes the reply to the last action.
    pub fn step(&mut self, reply: Reply)
        ensures
            final(self).at() == old(self).at().next(reply),
            final(self).driver() == old(self).driver(),
            old(self).at().wf() ==> final(self).at().wf(),
    {
        self.steps = self.steps.step(reply);
    }

    /// Whether the start is over.
    pub fn is_finished(&self) -> (r: bool)
        ensures
            r == self.at().finished(),
    {
        matches!(self.steps.phase, StartPhase::Command(Command::Finished))
    }

    /// Whether the transport is dead.
    pub fn is_poisoned(&self) -> (r: bool)
        ensures
            r == (self.at().phase is Poisoned),
    {
        matches!(self.steps.phase, StartPhase::Poisoned)
    }

    /// Turns a start that is over into the running driver, or gives the idle driver back with the
    /// error. An epoch that was announced meanwhile is kept either way.
    pub fn finish(self) -> (r: Result<Gnss<'clk, Running>, (Gnss<'clk, Idle>, GnssError)>)
        requires
            self.at().finished(),
        ensures
            match (command_result(self.at().latch), r) {
                (Ok(_), Ok(g)) => g.ready() == self.driver().ready() && g.pending() == (
                self.driver().pending() || self.at().latch.position),
                (Err(e), Err((g, f))) => f == e && g.ready() == self.driver().ready()
                    && g.pending() == (self.driver().pending() || self.at().latch.position),
                _ => false,
            },
    {
        let pending = self.gnss.position_pending || self.steps.latch.position;
        let ready_at: u64 = self.gnss.ready_at;
        match command_outcome(&self.steps.latch) {
            Ok(_) => Ok(
                Gnss {
                    position_pending: pending,
                    ready_at,
                    state: PhantomData,
                    clk: PhantomData,
                },
            ),
            Err(e) => Err(
                (
                    Gnss {
                        position_pending: pending,
                        ready_at,
                        state: PhantomData,
                        clk: PhantomData,
                    },
                    e,
                ),
            ),
        }
    }
}

/// The end of positioning. [`Stop::finish`] turns it into the idle driver.
pub struct Stop<'clk> {
    gnss: Gnss<'clk, Running>,
    latch: Latch,
    steps: Command,
}

impl<'clk> Stop<'clk> {
    /// The driver that is being stopped.
    pub closed spec fn driver(self) -> Gnss<'clk, Running> {
        self.gnss
    }

    /// What was seen so far.
    pub closed spec fn seen(self) -> Latch {
        self.latch
    }

    /// Where the stop command stands.
    pub closed spec fn at(self) -> Command {
        self.steps
    }

    /// What to do next, or `None` once the stop is over.
    pub fn action(&self) -> (a: Option<Action>)
        ensures
            a == self.at().wants(),
    {
        self.steps.action()
    }

    /// Takes the reply to the last action.
    pub fn step(&mut self, reply: Reply)
        ensures
            (final(self).at(), final(self).seen()) == old(self).at().next(old(self).seen(), reply),
            final(self).driver() == old(self).driver(),
    {
        let (steps, latch) = self.steps.step(self.latch, reply);
        self.steps = steps;
        self.latch = latch;
    }

    /// Whether the stop is over.
    pub fn is_finished(&self) -> (r: bool)
        ensures
            r == (self.at() is Finished),
    {
        matches!(self.steps, Command::Finished)
    }

    /// Whether the transport is dead.
    pub fn is_poisoned(&self) -> (r: bool)
        ensures
            r == (self.at() is Poisoned),
    {
        matches!(self.steps, Command::Poisoned)
    }

    /// Turns a stop that is over into the idle driver, which has no epoch to announce, or gives
    /// the running driver back with the error and with an epoch that was announced meanwhile.
    pub fn finish(self) -> (r: Result<Gnss<'clk, Idle>, (Gnss<'clk, Running>, GnssError)>)
        requires
            self.at() is Finished,
        ensures
            match (command_result(self.seen()), r) {
                (Ok(_), Ok(g)) => g.ready() == self.driver().ready() && !g.pending(),
                (Err(e), Err((g, f))) => f == e && g.ready() == self.driver().ready()
                    && g.pending() == (self.driver().pending() || self.seen().position),
                _ => false,
            },
    {
        match command_outcome(&self.latch) {
            Ok(_) => Ok(
                Gnss {
                    position_pending: false,
                    ready_at: self.gnss.ready_at,
                    state: PhantomData,
                    clk: PhantomData,
                },
            ),
            Err(e) => Err(
                (
                    Gnss {
                        position_pending: self.gnss.position_pending || self.latch.position,
                        ready_at: self.gnss.ready_at,
                        state: PhantomData,
                        clk: PhantomData,
                    },
                    e,
                ),
            ),
        }
    }
}

/// Where the wait for an epoch stands.
#[derive(Clone, Copy, Debug)]
pub enum UpdatePhase {
    /// The notification, which fires once, is being armed.
    Arm(Rpc),
    /// The clock has yet to be read for the deadline.
    Deadline,
    Await(Wait),
    Finished(Result<(), GnssError>),
    Poisoned,
}

/// The wait for a positioning epoch.
#[derive(Clone, Copy, Debug)]
pub struct Updating {
    pub timeout_ms: u32,
    /// An epoch was announced that this wait does not use up.
    pub pending: bool,
    pub latch: Latch,
    pub phase: UpdatePhase,
}

impl Updating {
    pub open spec fn starting(pending: bool, timeout_ms: u32) -> Updating {
        Updating {
            timeout_ms,
            pending: false,
            latch: Latch::empty(),
            phase: if pending {
                UpdatePhase::Finished(Ok(()))
            } else {
                UpdatePhase::Arm(Rpc::gd(API_GD_SETNOTIFYMASK, [DEV_GNSS, 0, 0, 0]))
            },
        }
    }

    pub open spec fn wants(self) -> Option<Action> {
        match self.phase {
            UpdatePhase::Arm(r) => r.wants(),
            UpdatePhase::Deadline => Some(Action::ReadRtc),
            UpdatePhase::Await(w) => w.wants(),
            UpdatePhase::Finished(_) | UpdatePhase::Poisoned => None,
        }
    }

    pub open spec fn at(self, phase: UpdatePhase, latch: Latch) -> Updating {
        Updating { phase, latch, ..self }
    }

    pub open spec fn next(self, reply: Reply) -> Updating {
        match (self.phase, reply) {
            (UpdatePhase::Arm(r), _) => {
                let (r2, latch) = r.next(self.latch, reply);
                match r2.phase {
                    RpcPhase::Finished(ret) => if ret < 0 {
                        Updating {
                            pending: latch.position,
                            ..self.at(UpdatePhase::Finished(Err(GnssError::Firmware(ret))), latch)
                        }
                    } else if latch.position {
                        self.at(UpdatePhase::Finished(Ok(())), latch)
                    } else {
                        self.at(UpdatePhase::Deadline, Latch::empty())
                    },
                    RpcPhase::Poisoned => self.at(UpdatePhase::Poisoned, latch),
                    _ => self.at(UpdatePhase::Arm(r2), latch),
                }
            },
            (UpdatePhase::Deadline, Reply::Rtc { hi, lo, again }) => match rtc::ticks(
                hi,
                lo,
                again,
            ) {
                Some(now) => self.at(
                    UpdatePhase::Await(
                        Wait::waiting(
                            (now + rtc::ticks_in_ms(self.timeout_ms)) as u64,
                            Goal::Position,
                        ),
                    ),
                    self.latch,
                ),
                None => self,
            },
            (UpdatePhase::Await(w), _) => {
                let (w2, latch) = w.next(self.latch, reply);
                match w2.phase {
                    WaitPhase::Finished(true) => self.at(UpdatePhase::Finished(Ok(())), latch),
                    WaitPhase::Finished(false) => self.at(
                        UpdatePhase::Finished(Err(GnssError::UpdateTimeout)),
                        latch,
                    ),
                    WaitPhase::Poisoned => self.at(UpdatePhase::Poisoned, latch),
                    _ => self.at(UpdatePhase::Await(w2), latch),
                }
            },
            _ => self,
        }
    }

    pub open spec fn wf(self) -> bool {
        match self.phase {
            UpdatePhase::Arm(r) => r.wf() && r.wants() is Some,
            UpdatePhase::Await(w) => w.wf() && w.wants() is Some,
            _ => true,
        }
    }

    pub fn action(&self) -> (a: Option<Action>)
        ensures
            a == self.wants(),
    {
        match self.phase {
            UpdatePhase::Arm(r) => r.action(),
            UpdatePhase::Deadline => Some(Action::ReadRtc),
            UpdatePhase::Await(w) => w.action(),
            UpdatePhase::Finished(_) | UpdatePhase::Poisoned => None,
        }
    }

    pub fn step(self, reply: Reply) -> (r: Updating)
        ensures
            r == self.next(reply),
    {
        match (self.phase, reply) {
            (UpdatePhase::Arm(r), _) => {
                let (r2, latch) = r.step(self.latch, reply);
                match r2.phase {
                    RpcPhase::Finished(ret) => match fw_result(ret) {
                        Err(e) => Updating {
                            pending: latch.position,
                            latch,
                            phase: UpdatePhase::Finished(Err(e)),
                            ..self
                        },
                        Ok(_) => if latch.position {
                            Updating { phase: UpdatePhase::Finished(Ok(())), latch, ..self }
                        } else {
                            Updating {
                                phase: UpdatePhase::Deadline,
                                latch: Latch::default(),
                                ..self
                            }
                        },
                    },
                    RpcPhase::Poisoned => Updating { phase: UpdatePhase::Poisoned, latch, ..self },
                    _ => Updating { phase: UpdatePhase::Arm(r2), latch, ..self },
                }
            },
            (UpdatePhase::Deadline, Reply::Rtc { hi, lo, again }) => match rtc_now(hi, lo, again) {
                Some(now) => {
                    let deadline: u64 = deadline_after_ms(now, self.timeout_ms);
                    let phase = UpdatePhase::Await(Wait::wait_until(deadline, Goal::Position));
                    Updating { phase, ..self }
                },
                None => self,
            },
            (UpdatePhase::Await(w), _) => {
                let (w2, latch) = w.step(self.latch, reply);
                let phase = match w2.phase {
                    WaitPhase::Finished(true) => UpdatePhase::Finished(Ok(())),
                    WaitPhase::Finished(false) => UpdatePhase::Finished(
                        Err(GnssError::UpdateTimeout),
                    ),
                    WaitPhase::Poisoned => UpdatePhase::Poisoned,
                    _ => UpdatePhase::Await(w2),
                };
                Updating { phase, latch, ..self }
            },
            _ => self,
        }
    }
}

/// A wait for an epoch that is under way stays well formed, and asks for something until it is
/// over.
pub proof fn law_update_progress(u: Updating, reply: Reply)
    requires
        u.wf(),
    ensures
        u.next(reply).wf(),
        u.wants() is None <==> (u.phase is Finished || u.phase is Poisoned),
{
    match u.phase {
        UpdatePhase::Arm(r) => {
            rpc::law_rpc_progress(r, u.latch, reply);
            rpc::law_rpc_progress(r.next(u.latch, reply).0, u.latch, reply);
        },
        UpdatePhase::Await(w) => {
            latch::law_wait_progress(w, u.latch, reply);
            latch::law_wait_progress(w.next(u.latch, reply).0, u.latch, reply);
        },
        _ => {},
    }
}

/// An epoch that was announced earlier ends a wait at once, without a word to the firmware, and is
/// used up by it.
pub proof fn law_pending_update_is_delivered(timeout_ms: u32)
    ensures
        Updating::starting(true, timeout_ms).wants() is None,
        Updating::starting(true, timeout_ms).phase == UpdatePhase::Finished(
            Ok::<(), GnssError>(()),
        ),
        !Updating::starting(true, timeout_ms).pending,
{
}

impl Updating {
    /// The wait after each of `replies` in turn.
    pub open spec fn run(self, replies: Seq<Reply>) -> Updating
        decreases replies.len(),
    {
        if replies.len() == 0 {
            self
        } else {
            self.run(replies.drop_last()).next(replies.last())
        }
    }
}

proof fn lemma_update_concat(u: Updating, first: Seq<Reply>, second: Seq<Reply>)
    ensures
        u.run(first + second) == u.run(first).run(second),
    decreases second.len(),
{
    if second.len() == 0 {
        assert(first + second =~= first);
    } else {
        assert((first + second).drop_last() =~= first + second.drop_last());
        lemma_update_concat(u, first, second.drop_last());
    }
}

proof fn lemma_update_calls(u: Updating, r: Rpc, replies: Seq<Reply>)
    requires
        u.phase == UpdatePhase::Arm(r),
        !r.run(u.latch, replies).0.over(),
    ensures
        u.run(replies) == ({
            let (r1, l1) = r.run(u.latch, replies);
            u.at(UpdatePhase::Arm(r1), l1)
        }),
    decreases replies.len(),
{
    if replies.len() > 0 {
        lemma_update_calls(u, r, replies.drop_last());
    }
}

proof fn lemma_update_reads(u: Updating, torn: Seq<Reply>)
    requires
        u.phase == UpdatePhase::Deadline,
        forall|i: int| 0 <= i < torn.len() ==> rtc::is_torn(#[trigger] torn[i]),
    ensures
        u.run(torn) == u,
    decreases torn.len(),
{
    if torn.len() > 0 {
        lemma_update_reads(u, torn.drop_last());
        assert(rtc::is_torn(torn[torn.len() - 1]));
    }
}

proof fn lemma_update_waits(u: Updating, w: Wait, replies: Seq<Reply>)
    requires
        u.phase == UpdatePhase::Await(w),
        !w.run(u.latch, replies).0.over(),
    ensures
        u.run(replies) == ({
            let (w1, l1) = w.run(u.latch, replies);
            u.at(UpdatePhase::Await(w1), l1)
        }),
    decreases replies.len(),
{
    if replies.len() > 0 {
        let before = replies.drop_last();
        let (w1, l1) = w.run(u.latch, before);
        if w1.over() {
            assert(w1.next(l1, replies.last()) == (w1, l1));
        }
        lemma_update_waits(u, w, before);
    }
}

/// However the call that arms the notification goes through, and whatever arrives meanwhile: if it
/// fails, the wait ends with its error, and an epoch that was announced during the call is kept for
/// the next wait; if an epoch was announced during the call, the wait ends with it; and otherwise
/// the deadline is counted from then on.
pub proof fn law_update_is_armed(timeout_ms: u32, arm: Exchange)
    requires
        arm.wf(DEFAULT_POLL_BUDGET, Latch::empty()),
    ensures
        ({
            let u = Updating::starting(false, timeout_ms);
            let u1 = u.run(arm.replies());
            let seen = traffic::announced(arm.traffic.messages(), proto::Event::Position);
            if arm.returned() < 0 {
                &&& u1.phase == UpdatePhase::Finished(
                    Err::<(), GnssError>(GnssError::Firmware(arm.returned())),
                )
                &&& u1.pending == seen
            } else if seen {
                u1.phase == UpdatePhase::Finished(Ok::<(), GnssError>(())) && !u1.pending
            } else {
                u1 == u.at(UpdatePhase::Deadline, Latch::empty())
            }
        }),
{
    let u = Updating::starting(false, timeout_ms);
    let r = Rpc::gd(API_GD_SETNOTIFYMASK, [DEV_GNSS, 0, 0, 0]);
    let n = arm.replies().len() - 1;
    rpc::law_call_returns(r, Latch::empty(), arm, n);
    assert(arm.replies().take(n) =~= arm.replies().drop_last());
    lemma_update_calls(u, r, arm.replies().drop_last());
    traffic::law_traffic_is_latched(arm.traffic, Latch::empty());
}

/// What a wait for an epoch meets once its notification is armed, before the look or the clock
/// reading that ends it.
pub struct Waiting {
    /// The reading that the deadline counts from.
    pub begun: Reading,
    /// The rounds that do not end the wait.
    pub rounds: Seq<Round>,
}

impl Waiting {
    /// The tick at which an epoch is no longer waited for.
    pub open spec fn deadline(self, timeout_ms: u32) -> int {
        self.begun.tick + rtc::ticks_in_ms(timeout_ms)
    }

    /// Whether nothing ends the wait so far.
    pub open spec fn wf(self, timeout_ms: u32, latch: Latch) -> bool {
        &&& self.begun.wf()
        &&& traffic::goes_on(Goal::Position, self.deadline(timeout_ms), latch, self.rounds)
    }

    /// The replies.
    pub open spec fn replies(self) -> Seq<Reply> {
        self.begun.replies() + traffic::all_replies(self.rounds)
    }

    /// The latch so far.
    pub open spec fn after(self, latch: Latch) -> Latch {
        traffic::latch_after(latch, self.rounds)
    }
}

proof fn lemma_update_awaits(u: Updating, x: Waiting, end: Seq<Reply>)
    requires
        u.phase == UpdatePhase::Deadline,
        x.wf(u.timeout_ms, u.latch),
        ({
            let w = Wait::waiting(x.deadline(u.timeout_ms) as u64, Goal::Position);
            let waited = traffic::all_replies(x.rounds) + end;
            &&& waited.len() > 0
            &&& !w.run(u.latch, waited.drop_last()).0.over()
        }),
    ensures
        ({
            let w = Wait::waiting(x.deadline(u.timeout_ms) as u64, Goal::Position);
            let waited = traffic::all_replies(x.rounds) + end;
            let (w1, l1) = w.run(u.latch, waited.drop_last());
            let replies = x.replies() + end;
            &&& replies.len() > 0
            &&& u.run(replies.drop_last()) == u.at(UpdatePhase::Await(w1), l1)
            &&& replies.last() == waited.last()
        }),
{
    let w = Wait::waiting(x.deadline(u.timeout_ms) as u64, Goal::Position);
    let waited = traffic::all_replies(x.rounds) + end;
    let a = x.begun.replies();
    let u1 = u.at(UpdatePhase::Await(w), u.latch);
    lemma_update_reads(u, x.begun.torn);
    assert(a.drop_last() =~= x.begun.torn);
    assert(u.run(a) == u1);
    lemma_update_waits(u1, w, waited.drop_last());
    assert(x.replies() + end =~= a + waited);
    assert((a + waited).drop_last() =~= a + waited.drop_last());
    lemma_update_concat(u, a, waited.drop_last());
}

/// Whatever else arrives meanwhile: once the notification is armed, an epoch that is announced
/// before the clock shows the deadline ends the wait, with the look that finds it and no earlier,
/// and is used up.
pub proof fn law_update_is_delivered(u: Updating, x: Waiting, last: Traffic)
    requires
        u.phase == UpdatePhase::Deadline,
        x.wf(u.timeout_ms, u.latch),
        last.wf(x.after(u.latch)),
        x.after(u.latch).position || traffic::announced(last.messages(), proto::Event::Position),
    ensures
        ({
            let replies = x.replies() + last.replies();
            &&& replies.len() > 0
            &&& u.run(replies) == u.at(
                UpdatePhase::Finished(Ok::<(), GnssError>(())),
                Latch { position: false, ..last.after(x.after(u.latch)) },
            )
            &&& u.run(replies.drop_last()).phase is Await
        }),
{
    traffic::law_traffic_is_latched(last, x.after(u.latch));
    traffic::law_wait_is_met(
        x.deadline(u.timeout_ms) as u64,
        Goal::Position,
        u.latch,
        x.rounds,
        last,
    );
    lemma_update_awaits(u, x, last.replies());
}

/// Whatever else arrives meanwhile: once the notification is armed, a wait without an epoch ends
/// with the first reading of the clock that shows the deadline, and no earlier.
pub proof fn law_update_times_out(u: Updating, x: Waiting, last: Round)
    requires
        u.phase == UpdatePhase::Deadline,
        x.wf(u.timeout_ms, u.latch),
        last.wf(Goal::Position, x.after(u.latch)),
        last.reading.tick >= x.deadline(u.timeout_ms),
    ensures
        ({
            let replies = x.replies() + last.replies();
            &&& replies.len() > 0
            &&& u.run(replies) == u.at(
                UpdatePhase::Finished(Err::<(), GnssError>(GnssError::UpdateTimeout)),
                last.traffic.after(x.after(u.latch)),
            )
            &&& u.run(replies.drop_last()).phase is Await
        }),
{
    traffic::law_wait_times_out(
        x.deadline(u.timeout_ms) as u64,
        Goal::Position,
        u.latch,
        x.rounds,
        last,
    );
    lemma_update_awaits(u, x, last.replies());
}

/// What ends a wait for an epoch.
pub enum Ending {
    /// A look that finds one.
    Found(Traffic),
    /// A reading of the clock that shows the deadline.
    Late(Round),
}

impl Ending {
    /// Whether it ends a wait that stands at `latch`.
    pub open spec fn wf(self, deadline: int, latch: Latch) -> bool {
        match self {
            Ending::Found(t) => t.wf(latch) && traffic::announced(
                t.messages(),
                proto::Event::Position,
            ),
            Ending::Late(r) => r.wf(Goal::Position, latch) && r.reading.tick >= deadline,
        }
    }

    /// The replies.
    pub open spec fn replies(self) -> Seq<Reply> {
        match self {
            Ending::Found(t) => t.replies(),
            Ending::Late(r) => r.replies(),
        }
    }

    /// What the wait comes to.
    pub open spec fn outcome(self) -> Result<(), GnssError> {
        match self {
            Ending::Found(_) => Ok(()),
            Ending::Late(_) => Err(GnssError::UpdateTimeout),
        }
    }
}

/// A whole wait, from the call that arms the notification on, whatever else arrives meanwhile: if
/// no epoch is announced during the call, it gives the one that is announced before the clock shows
/// the deadline, and times out if the clock shows the deadline first.
pub proof fn law_update_outcome(timeout_ms: u32, arm: Exchange, x: Waiting, end: Ending)
    requires
        arm.wf(DEFAULT_POLL_BUDGET, Latch::empty()),
        arm.returned() >= 0,
        !traffic::announced(arm.traffic.messages(), proto::Event::Position),
        x.wf(timeout_ms, Latch::empty()),
        end.wf(x.deadline(timeout_ms), x.after(Latch::empty())),
    ensures
        Updating::starting(false, timeout_ms).run(
            arm.replies() + (x.replies() + end.replies()),
        ).phase == UpdatePhase::Finished(end.outcome()),
{
    let u = Updating::starting(false, timeout_ms);
    let u1 = u.at(UpdatePhase::Deadline, Latch::empty());
    law_update_is_armed(timeout_ms, arm);
    match end {
        Ending::Found(t) => {
            law_update_is_delivered(u1, x, t);
        },
        Ending::Late(r) => {
            law_update_times_out(u1, x, r);
        },
    }
    lemma_update_concat(u, arm.replies(), x.replies() + end.replies());
}

/// The wait for a positioning epoch, which borrows the driver.
pub struct WaitUpdate<'g, 'clk> {
    pub gnss: &'g mut Gnss<'clk, Running>,
    pub steps: Updating,
}

impl<'g, 'clk> WaitUpdate<'g, 'clk> {
    /// What to do next, or `None` once the wait is over.
    pub fn action(&self) -> (a: Option<Action>)
        ensures
            a == self.steps.wants(),
    {
        self.steps.action()
    }

    /// Takes the reply to the last action.
    pub fn step(&mut self, reply: Reply)
        ensures
            final(self).steps == old(self).steps.next(reply),
            final(self).gnss == old(self).gnss,
    {
        self.steps = self.steps.step(reply);
    }

    /// Whether the transport is dead.
    pub fn is_poisoned(&self) -> (r: bool)
        ensures
            r == (self.steps.phase is Poisoned),
    {
        matches!(self.steps.phase, UpdatePhase::Poisoned)
    }

    /// The result, or `None` while the wait runs. The driver keeps an epoch that was announced and
    /// not used up.
    pub fn finish(self) -> (r: Option<Result<(), GnssError>>)
        ensures
            match self.steps.phase {
                UpdatePhase::Finished(res) => r == Some(res),
                _ => r is None,
            },
            final(self.gnss).pending() == (old(self.gnss).pending() || self.steps.pending),
            final(self.gnss).ready() == old(self.gnss).ready(),
    {
        if self.steps.pending {
            self.gnss.position_pending = true;
        }
        match self.steps.phase {
            UpdatePhase::Finished(res) => Some(res),
            _ => None,
        }
    }
}

/// The end of the driver: the firmware's core is powered down.
pub struct Shutdown {
    latch: Latch,
    steps: GpsOff,
}

impl Shutdown {
    /// What was seen so far.
    pub closed spec fn seen(self) -> Latch {
        self.latch
    }

    /// Where the shutdown stands.
    pub closed spec fn at(self) -> GpsOff {
        self.steps
    }

    /// What to do next, or `None` once the shutdown is over.
    pub fn action(&self) -> (a: Option<Action>)
        ensures
            a == self.at().wants(),
    {
        self.steps.action()
    }

    /// Takes the reply to the last action.
    pub fn step(&mut self, reply: Reply)
        ensures
            (final(self).at(), final(self).seen()) == old(self).at().next(old(self).seen(), reply),
    {
        let (steps, latch) = self.steps.step(self.latch, reply);
        self.steps = steps;
        self.latch = latch;
    }

    /// Whether the shutdown is over.
    pub fn is_finished(&self) -> (r: bool)
        ensures
            r == (self.at() is Finished),
    {
        matches!(self.steps, GpsOff::Finished(_))
    }

    /// Whether the transport is dead.
    pub fn is_poisoned(&self) -> (r: bool)
        ensures
            r == (self.at() is Poisoned),
    {
        matches!(self.steps, GpsOff::Poisoned)
    }

    /// Frees the driver, and tells how the core was powered down. While that is not over, nothing
    /// happens and the result is `None`.
    pub fn finish(self, slot: &mut Singleton) -> (r: Option<Result<(), GnssError>>)
        ensures
            match self.at() {
                GpsOff::Finished(ret) => {
                    &&& !final(slot).taken
                    &&& r == Some(
                        if ret < 0 {
                            Err::<(), GnssError>(GnssError::Firmware(ret))
                        } else {
                            Ok(())
                        },
                    )
                },
                _ => r is None && *final(slot) == *old(slot),
            },
    {
        match self.steps {
            GpsOff::Finished(ret) => {
                slot.taken = false;
                match fw_result(ret) {
                    Ok(_) => Some(Ok(())),
                    Err(e) => Some(Err(e)),
                }
            },
            _ => None,
        }
    }
}

impl<'clk> Gnss<'clk, Idle> {
    /// Starts positioning: the firmware is given the time that it needs after its boot, the rail
    /// is switched on, and the start command is sent and its acknowledgement awaited.
    pub fn start(self, mode: StartMode) -> (s: Start<'clk>)
        ensures
            s.driver() == self,
            s.at() == Starting::starting(self.ready(), mode),
            s.at().wf(),
    {
        let wait = Wait::wait_until(self.ready_at, Goal::Never);
        let steps = Starting {
            ready_at: self.ready_at,
            mode,
            latch: Latch::default(),
            phase: StartPhase::Hold(wait),
        };
        Start { gnss: self, steps }
    }

    /// Powers the firmware's core down. What the firmware keeps for a warm or hot start survives.
    /// The clock is free again.
    pub fn shutdown(self) -> (s: Shutdown)
        ensures
            s.at() == GpsOff::starting(),
            s.seen() == Latch::empty(),
    {
        Shutdown { latch: Latch::default(), steps: GpsOff::gps_cpu_off() }
    }
}

impl<'clk> Gnss<'clk, Running> {
    /// Waits for a positioning epoch, at most `timeout_ms`. An epoch that was announced earlier is
    /// taken at once.
    pub fn wait_update<'g>(&'g mut self, timeout_ms: u32) -> (w: WaitUpdate<'g, 'clk>)
        ensures
            w.steps == Updating::starting(old(self).pending(), timeout_ms),
            !w.gnss.pending(),
            w.gnss.ready() == old(self).ready(),
            *final(self) == *final(w.gnss),
    {
        let pending = self.position_pending;
        self.position_pending = false;
        let phase = if pending {
            UpdatePhase::Finished(Ok(()))
        } else {
            UpdatePhase::Arm(
                Rpc::rpc(
                    CPU_GPS,
                    MODID_GNSS,
                    API_GD_SETNOTIFYMASK,
                    [DEV_GNSS, 0, 0, 0],
                    DEFAULT_POLL_BUDGET,
                ),
            )
        };
        let steps = Updating { timeout_ms, pending: false, latch: Latch::default(), phase };
        WaitUpdate { gnss: self, steps }
    }

    /// Stops positioning. The rail stays on.
    pub fn stop(self) -> (s: Stop<'clk>)
        ensures
            s.driver() == self,
            s.seen() == Latch::empty(),
            s.at() == Command::sending(CPUFIFOAPI_STOP),
            s.at() matches Command::Send(g) && g.words[0] == 0x1d0d_0000 && g.words[1] == 1,
    {
        Stop {
            gnss: self,
            latch: Latch::default(),
            steps: Command::Send(SigSend::send_sig(DEV_CPUFIFOAPI, CPUFIFOAPI_STOP)),
        }
    }
}

/// What a command pushes, and what a start and a stop therefore send to the firmware: word 0 is
/// 0x1d0d_0000, and word 1 is 0, 256 or 768 for a cold, warm or hot start, and 1 for a stop.
pub proof fn law_commands_on_the_wire(mode: StartMode)
    ensures
        start_data(mode) == match mode {
            StartMode::Cold => 0u32,
            StartMode::Warm => 256u32,
            StartMode::Hot => 768u32,
        },
        Command::sending(start_data(mode)) matches Command::Send(s) && s.words[0] == 0x1d0d_0000
            && s.words[1] == start_data(mode),
        Command::sending(CPUFIFOAPI_STOP) matches Command::Send(s) && s.words[0] == 0x1d0d_0000
            && s.words[1] == 1,
{
}

/// The command that a start sends is that of its mode, whatever arrives before it is sent or while
/// it is refused; and the load switch that it turns on is channel 16.
pub proof fn law_start_sends_its_mode(ready_at: u64, mode: StartMode, replies: Seq<Reply>)
    ensures
        ({
            let s = Starting::starting(ready_at, mode).run(replies);
            &&& s.mode == mode
            &&& s.phase matches StartPhase::Command(Command::Send(g)) ==> {
                &&& g.words[0] == 0x1d0d_0000
                &&& g.words[1] == match mode {
                    StartMode::Cold => 0u32,
                    StartMode::Warm => 256u32,
                    StartMode::Hot => 768u32,
                }
            }
            &&& s.phase is Rail ==> s.wants() == Some(
                Action::SetLoadswitch { channel: 16, on: true },
            )
        }),
    decreases replies.len(),
{
    if replies.len() > 0 {
        law_start_sends_its_mode(ready_at, mode, replies.drop_last());
        law_commands_on_the_wire(mode);
    }
}

/// The steps of a start follow one another: the wait, the rail, the command.
pub proof fn law_start_order(s: Starting, reply: Reply)
    ensures
        match s.phase {
            StartPhase::Hold(w) => match w.next(s.latch, reply).0.phase {
                WaitPhase::Finished(_) => s.next(reply).phase is Rail,
                WaitPhase::Poisoned => s.next(reply).phase is Poisoned,
                _ => s.next(reply).phase == StartPhase::Hold(w.next(s.latch, reply).0),
            },
            StartPhase::Rail => match reply {
                Reply::Switched(true) => s.next(reply).phase is Command,
                Reply::Switched(false) => s.next(reply).phase is Poisoned,
                _ => s.next(reply) == s,
            },
            StartPhase::Command(c) => if c.next(s.latch, reply).0 is Poisoned {
                s.next(reply).phase is Poisoned
            } else {
                s.next(reply).phase == StartPhase::Command(c.next(s.latch, reply).0)
            },
            StartPhase::Poisoned => s.next(reply) == s,
        },
{
}

/// What a command comes to: an acknowledgement that is not negative is success, a negative one is
/// the firmware's error, and none is a timeout.
pub proof fn law_command_results(latch: Latch)
    ensures
        command_result(latch) is Ok <==> (latch.cpufifo_ret matches Some(code) && code >= 0),
        latch.cpufifo_ret is None <==> command_result(latch) == Err::<(), GnssError>(
            GnssError::AckTimeout,
        ),
        latch.cpufifo_ret matches Some(code) && code < 0 ==> command_result(latch) == Err::<
            (),
            GnssError,
        >(GnssError::Firmware(latch.cpufifo_ret->0)),
{
}

/// A wait for an epoch arms the notification of type 0 with function 152 of the firmware, whatever
/// arrives meanwhile, and keeps its time limit.
pub proof fn law_update_arms_the_notification(timeout_ms: u32, replies: Seq<Reply>)
    ensures
        ({
            let u = Updating::starting(false, timeout_ms).run(replies);
            &&& u.timeout_ms == timeout_ms
            &&& u.phase matches UpdatePhase::Arm(r) ==> r.is_call(
                1,
                8,
                152,
                seq![0u32, 0u32, 0u32, 0u32],
                5_000_000,
            )
        }),
        Updating::starting(false, timeout_ms).phase is Arm,
    decreases replies.len(),
{
    let r = Rpc::gd(API_GD_SETNOTIFYMASK, [DEV_GNSS, 0, 0, 0]);
    assert(r.arg@ =~= seq![0u32, 0u32, 0u32, 0u32]);
    if replies.len() > 0 {
        law_update_arms_the_notification(timeout_ms, replies.drop_last());
    }
}

/// Commands, starts and waits for an epoch take no notice of a reply to something that they did not
/// ask for.
pub proof fn law_sessions_take_only_answers(
    c: Command,
    s: Starting,
    u: Updating,
    latch: Latch,
    reply: Reply,
)
    ensures
        c.wf() && !icc::answers(c.wants(), reply) ==> c.next(latch, reply) == (c, latch),
        s.wf() && !icc::answers(s.wants(), reply) ==> s.next(reply) == s,
        u.wf() && !icc::answers(u.wants(), reply) ==> u.next(reply) == u,
{
    lemma_command_answers(c, latch, reply);
    match s.phase {
        StartPhase::Hold(w) => {
            lemma_wait_answers(w, s.latch, reply);
        },
        StartPhase::Command(x) => {
            lemma_command_answers(x, s.latch, reply);
        },
        _ => {},
    }
    match u.phase {
        UpdatePhase::Arm(r) => {
            rpc::law_calls_take_only_answers(r, GpsOff::Poisoned, u.latch, reply);
            if u.wf() {
                rpc::law_rpc_progress(r, u.latch, reply);
            }
        },
        UpdatePhase::Await(w) => {
            lemma_wait_answers(w, u.latch, reply);
        },
        _ => {},
    }
}

proof fn lemma_wait_answers(w: Wait, latch: Latch, reply: Reply)
    ensures
        w.wf() && !icc::answers(w.wants(), reply) ==> w.next(latch, reply) == (w, latch),
        w.wf() && w.wants() is Some ==> !(w.phase is Finished) && !(w.phase is Poisoned),
{
    latch::law_waits_take_only_answers(
        SigSend::sending(0, 0),
        latch::Service::Finished,
        latch::Settle::Popping,
        w,
        latch,
        reply,
        0,
        0,
    );
}

proof fn lemma_command_answers(c: Command, latch: Latch, reply: Reply)
    ensures
        c.wf() && !icc::answers(c.wants(), reply) ==> c.next(latch, reply) == (c, latch),
{
    match c {
        Command::Await(w) => {
            lemma_wait_answers(w, latch, reply);
        },
        _ => {},
    }
}

} // verus!
