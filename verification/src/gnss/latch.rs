//! Notifications that arrive while the driver waits for something else, and the waits themselves.
//!
//! Each wait is a sequence of primitive operations on the mailbox and the clock. Its state and the
//! [`Latch`] that it fills are plain values; a step takes both and returns both.

use vstd::prelude::*;

use crate::gnss::proto;
use crate::gnss::proto::{classify, sig_words, Event, DEV_BKUPFILE, DEV_CEP};
use crate::gnss::rtc;
use crate::gnss::rtc::rtc_now;
use crate::icc;
use crate::icc::{Action, Reply};

verus! {

/// How often a signal is pushed before the transport counts as dead.
pub const SIG_PUSH_BUDGET: u32 = 50_000_000;

/// What the application reports when it is asked for data that it does not keep: there is none.
pub const NO_STORED_DATA: i32 = -2;

/// Notifications that were seen and not acted on.
#[derive(Clone, Copy, Debug, PartialEq, Eq)]
pub struct Latch {
    pub position: bool,
    pub bootcomp: bool,
    pub cpufifo_ret: Option<i32>,
    pub req_backup: bool,
    pub req_cep: bool,
}

/// The latch after the event `ev`.
pub open spec fn absorbed(latch: Latch, ev: Event) -> Latch {
    match ev {
        Event::Position => Latch { position: true, ..latch },
        Event::BootComp => Latch { bootcomp: true, ..latch },
        Event::CpuFifoApiRet(ret) => Latch { cpufifo_ret: Some(ret), ..latch },
        Event::ReqBackupData => Latch { req_backup: true, ..latch },
        Event::ReqCepData => Latch { req_cep: true, ..latch },
        Event::CepHousekeeping | Event::Other => latch,
    }
}

/// The latch after a look into the queue of notifications.
pub open spec fn looked(latch: Latch, got: Option<[u32; 2]>) -> Latch {
    match got {
        Some(w) => absorbed(latch, proto::meaning(w)),
        None => latch,
    }
}

impl Latch {
    /// A latch that has seen nothing.
    pub open spec fn empty() -> Latch {
        Latch {
            position: false,
            bootcomp: false,
            cpufifo_ret: None,
            req_backup: false,
            req_cep: false,
        }
    }

    /// Remembers an event until it is acted on.
    pub fn absorb(&mut self, ev: Event)
        ensures
            *final(self) == absorbed(*old(self), ev),
    {
        match ev {
            Event::Position => self.position = true,
            Event::BootComp => self.bootcomp = true,
            Event::CpuFifoApiRet(ret) => self.cpufifo_ret = Some(ret),
            Event::ReqBackupData => self.req_backup = true,
            Event::ReqCepData => self.req_cep = true,
            Event::CepHousekeeping | Event::Other => {},
        }
    }

    fn look(self, got: Option<[u32; 2]>) -> (r: Latch)
        ensures
            r == looked(self, got),
    {
        let mut latch = self;
        if let Some(w) = got {
            latch.absorb(classify(w));
        }
        latch
    }
}

impl Default for Latch {
    fn default() -> (r: Latch)
        ensures
            r == Latch::empty(),
    {
        Latch {
            position: false,
            bootcomp: false,
            cpufifo_ret: None,
            req_backup: false,
            req_cep: false,
        }
    }
}

/// What an event sets stays set while other events come in.
pub proof fn law_latch_keeps_events(latch: Latch, ev: Event)
    ensures
        latch.position ==> absorbed(latch, ev).position,
        latch.bootcomp ==> absorbed(latch, ev).bootcomp,
        latch.cpufifo_ret is Some ==> absorbed(latch, ev).cpufifo_ret is Some,
        latch.req_backup ==> absorbed(latch, ev).req_backup,
        latch.req_cep ==> absorbed(latch, ev).req_cep,
{
}

/// Where the push of a signal stands. `left` tries remain.
#[derive(Clone, Copy, Debug)]
pub enum SigPhase {
    Push { left: u32 },
    Drain { left: u32 },
    Pop { left: u32 },
    Sent,
    /// The FIFO refused the signal as often as the budget allows.
    Jammed,
}

/// The push of one signal. A full FIFO may wait for this core to take what is inbound, so each
/// refusal is followed by a drain and one look into the queue of notifications.
#[derive(Clone, Copy, Debug)]
pub struct SigSend {
    pub words: [u32; 2],
    pub phase: SigPhase,
}

impl SigSend {
    pub open spec fn sending(sigtype: u32, data: u32) -> SigSend {
        SigSend {
            words: proto::signal(sigtype, data),
            phase: SigPhase::Push { left: SIG_PUSH_BUDGET },
        }
    }

    pub open spec fn wants(self) -> Option<Action> {
        match self.phase {
            SigPhase::Push { .. } => Some(Action::Push(self.words)),
            SigPhase::Drain { .. } => Some(Action::DrainRx),
            SigPhase::Pop { .. } => Some(Action::PopMsg),
            SigPhase::Sent | SigPhase::Jammed => None,
        }
    }

    pub open spec fn next(self, latch: Latch, reply: Reply) -> (SigSend, Latch) {
        match (self.phase, reply) {
            (SigPhase::Push { left }, Reply::Pushed(taken)) => (
                SigSend {
                    phase: if taken {
                        SigPhase::Sent
                    } else {
                        SigPhase::Drain {
                            left: if left == 0 {
                                0
                            } else {
                                (left - 1) as u32
                            },
                        }
                    },
                    ..self
                },
                latch,
            ),
            (SigPhase::Drain { left }, Reply::Done) => (
                SigSend { phase: SigPhase::Pop { left }, ..self },
                latch,
            ),
            (SigPhase::Pop { left }, Reply::Words(got)) => (
                SigSend {
                    phase: if left == 0 {
                        SigPhase::Jammed
                    } else {
                        SigPhase::Push { left }
                    },
                    ..self
                },
                looked(latch, got),
            ),
            _ => (self, latch),
        }
    }

    /// Starts the push of a signal.
    pub fn send_sig(sigtype: u32, data: u32) -> (s: SigSend)
        ensures
            s == SigSend::sending(sigtype, data),
    {
        SigSend {
            words: sig_words(sigtype, data),
            phase: SigPhase::Push { left: SIG_PUSH_BUDGET },
        }
    }

    pub fn action(&self) -> (a: Option<Action>)
        ensures
            a == self.wants(),
    {
        match self.phase {
            SigPhase::Push { .. } => Some(Action::Push(self.words)),
            SigPhase::Drain { .. } => Some(Action::DrainRx),
            SigPhase::Pop { .. } => Some(Action::PopMsg),
            SigPhase::Sent | SigPhase::Jammed => None,
        }
    }

    pub fn step(self, latch: Latch, reply: Reply) -> (r: (SigSend, Latch))
        ensures
            r == self.next(latch, reply),
    {
        match (self.phase, reply) {
            (SigPhase::Push { left }, Reply::Pushed(taken)) => {
                let phase = if taken {
                    SigPhase::Sent
                } else if left == 0 {
                    SigPhase::Drain { left: 0 }
                } else {
                    SigPhase::Drain { left: left - 1 }
                };
                (SigSend { phase, ..self }, latch)
            },
            (SigPhase::Drain { left }, Reply::Done) => (
                SigSend { phase: SigPhase::Pop { left }, ..self },
                latch,
            ),
            (SigPhase::Pop { left }, Reply::Words(got)) => {
                let phase = if left == 0 {
                    SigPhase::Jammed
                } else {
                    SigPhase::Push { left }
                };
                (SigSend { phase, ..self }, latch.look(got))
            },
            _ => (self, latch),
        }
    }
}

/// Where the answers to the firmware's requests stand. The driver keeps no data, so each answer is
/// the return value [`NO_STORED_DATA`] and then an empty terminator signal.
#[derive(Clone, Copy, Debug)]
pub enum Service {
    BackupRetval,
    BackupSignal(SigSend),
    CepRetval,
    CepSignal(SigSend),
    Finished,
    Poisoned,
}

impl Service {
    /// The answers that `latch` calls for, and the latch without the requests in hand.
    pub open spec fn serving(latch: Latch) -> (Service, Latch) {
        if latch.req_backup {
            (Service::BackupRetval, Latch { req_backup: false, ..latch })
        } else {
            Service::serving_cep(latch)
        }
    }

    /// The part of the answers that follows the backup request.
    pub open spec fn serving_cep(latch: Latch) -> (Service, Latch) {
        if latch.req_cep {
            (Service::CepRetval, Latch { req_cep: false, ..latch })
        } else {
            (Service::Finished, latch)
        }
    }

    pub open spec fn wants(self) -> Option<Action> {
        match self {
            Service::BackupRetval | Service::CepRetval => Some(Action::SetRetval(NO_STORED_DATA)),
            Service::BackupSignal(s) | Service::CepSignal(s) => s.wants(),
            Service::Finished | Service::Poisoned => None,
        }
    }

    pub open spec fn next(self, latch: Latch, reply: Reply) -> (Service, Latch) {
        match (self, reply) {
            (Service::BackupRetval, Reply::Done) => (
                Service::BackupSignal(SigSend::sending(DEV_BKUPFILE, 0)),
                latch,
            ),
            (Service::BackupSignal(s), _) => {
                let (s2, latch2) = s.next(latch, reply);
                match s2.phase {
                    SigPhase::Sent => Service::serving_cep(latch2),
                    SigPhase::Jammed => (Service::Poisoned, latch2),
                    _ => (Service::BackupSignal(s2), latch2),
                }
            },
            (Service::CepRetval, Reply::Done) => (
                Service::CepSignal(SigSend::sending(DEV_CEP, 0)),
                latch,
            ),
            (Service::CepSignal(s), _) => {
                let (s2, latch2) = s.next(latch, reply);
                match s2.phase {
                    SigPhase::Sent => (Service::Finished, latch2),
                    SigPhase::Jammed => (Service::Poisoned, latch2),
                    _ => (Service::CepSignal(s2), latch2),
                }
            },
            _ => (self, latch),
        }
    }

    /// Whether a signal in hand is still being pushed.
    pub open spec fn wf(self) -> bool {
        match self {
            Service::BackupSignal(s) | Service::CepSignal(s) => s.wants() is Some,
            _ => true,
        }
    }

    /// Starts to answer the requests that `latch` holds.
    pub fn service_requests(latch: Latch) -> (r: (Service, Latch))
        ensures
            r == Service::serving(latch),
    {
        if latch.req_backup {
            (Service::BackupRetval, Latch { req_backup: false, ..latch })
        } else {
            Service::service_cep(latch)
        }
    }

    fn service_cep(latch: Latch) -> (r: (Service, Latch))
        ensures
            r == Service::serving_cep(latch),
    {
        if latch.req_cep {
            (Service::CepRetval, Latch { req_cep: false, ..latch })
        } else {
            (Service::Finished, latch)
        }
    }

    pub fn action(&self) -> (a: Option<Action>)
        ensures
            a == self.wants(),
    {
        match self {
            Service::BackupRetval | Service::CepRetval => Some(Action::SetRetval(NO_STORED_DATA)),
            Service::BackupSignal(s) | Service::CepSignal(s) => s.action(),
            Service::Finished | Service::Poisoned => None,
        }
    }

    pub fn step(self, latch: Latch, reply: Reply) -> (r: (Service, Latch))
        ensures
            r == self.next(latch, reply),
    {
        match (self, reply) {
            (Service::BackupRetval, Reply::Done) => (
                Service::BackupSignal(SigSend::send_sig(DEV_BKUPFILE, 0)),
                latch,
            ),
            (Service::BackupSignal(s), _) => {
                let (s2, latch2) = s.step(latch, reply);
                match s2.phase {
                    SigPhase::Sent => Service::service_cep(latch2),
                    SigPhase::Jammed => (Service::Poisoned, latch2),
                    _ => (Service::BackupSignal(s2), latch2),
                }
            },
            (Service::CepRetval, Reply::Done) => (
                Service::CepSignal(SigSend::send_sig(DEV_CEP, 0)),
                latch,
            ),
            (Service::CepSignal(s), _) => {
                let (s2, latch2) = s.step(latch, reply);
                match s2.phase {
                    SigPhase::Sent => (Service::Finished, latch2),
                    SigPhase::Jammed => (Service::Poisoned, latch2),
                    _ => (Service::CepSignal(s2), latch2),
                }
            },
            _ => (self, latch),
        }
    }
}

/// The notifications on hand are being latched, and then the requests among them answered.
#[derive(Clone, Copy, Debug)]
pub enum Settle {
    Popping,
    Serving(Service),
}

impl Settle {
    pub open spec fn finished(self) -> bool {
        self == Settle::Serving(Service::Finished)
    }

    pub open spec fn poisoned(self) -> bool {
        self == Settle::Serving(Service::Poisoned)
    }

    pub open spec fn wants(self) -> Option<Action> {
        match self {
            Settle::Popping => Some(Action::PopMsg),
            Settle::Serving(s) => s.wants(),
        }
    }

    pub open spec fn next(self, latch: Latch, reply: Reply) -> (Settle, Latch) {
        match (self, reply) {
            (Settle::Popping, Reply::Words(Some(w))) => (self, absorbed(latch, proto::meaning(w))),
            (Settle::Popping, Reply::Words(None)) => {
                let (s, latch2) = Service::serving(latch);
                (Settle::Serving(s), latch2)
            },
            (Settle::Serving(s), _) => {
                let (s2, latch2) = s.next(latch, reply);
                (Settle::Serving(s2), latch2)
            },
            _ => (self, latch),
        }
    }

    pub open spec fn wf(self) -> bool {
        self matches Settle::Serving(s) ==> s.wf()
    }

    pub fn is_finished(&self) -> (r: bool)
        ensures
            r == self.finished(),
    {
        matches!(self, Settle::Serving(Service::Finished))
    }

    pub fn is_poisoned(&self) -> (r: bool)
        ensures
            r == self.poisoned(),
    {
        matches!(self, Settle::Serving(Service::Poisoned))
    }

    pub fn action(&self) -> (a: Option<Action>)
        ensures
            a == self.wants(),
    {
        match self {
            Settle::Popping => Some(Action::PopMsg),
            Settle::Serving(s) => s.action(),
        }
    }

    pub fn step(self, latch: Latch, reply: Reply) -> (r: (Settle, Latch))
        ensures
            r == self.next(latch, reply),
    {
        match (self, reply) {
            (Settle::Popping, Reply::Words(Some(w))) => (self, latch.look(Some(w))),
            (Settle::Popping, Reply::Words(None)) => {
                let (s, latch2) = Service::service_requests(latch);
                (Settle::Serving(s), latch2)
            },
            (Settle::Serving(s), _) => {
                let (s2, latch2) = s.step(latch, reply);
                (Settle::Serving(s2), latch2)
            },
            _ => (self, latch),
        }
    }
}

/// What a wait is for.
#[derive(Clone, Copy, Debug, PartialEq, Eq, Structural)]
pub enum Goal {
    /// Nothing but the deadline.
    Never,
    /// The end of the firmware's initialization, which is used up.
    BootComp,
    /// A positioning epoch, which is used up.
    Position,
    /// The acknowledgement of a command, which stays latched.
    Ack,
}

/// Whether the latch holds what a wait is for, and the latch without what the wait uses up.
pub open spec fn met(goal: Goal, latch: Latch) -> (bool, Latch) {
    match goal {
        Goal::Never => (false, latch),
        Goal::BootComp => (latch.bootcomp, Latch { bootcomp: false, ..latch }),
        Goal::Position => (latch.position, Latch { position: false, ..latch }),
        Goal::Ack => (latch.cpufifo_ret is Some, latch),
    }
}

/// Where a wait stands.
#[derive(Clone, Copy, Debug)]
pub enum WaitPhase {
    Settling(Settle),
    /// The goal is not met, and the clock has yet to be read.
    Clock,
    /// Whether the goal was met.
    Finished(bool),
    Poisoned,
}

/// A wait for a notification or a deadline, during which the firmware's requests are answered.
#[derive(Clone, Copy, Debug)]
pub struct Wait {
    pub deadline: u64,
    pub goal: Goal,
    pub phase: WaitPhase,
}

impl Wait {
    pub open spec fn waiting(deadline: u64, goal: Goal) -> Wait {
        Wait { deadline, goal, phase: WaitPhase::Settling(Settle::Popping) }
    }

    pub open spec fn wants(self) -> Option<Action> {
        match self.phase {
            WaitPhase::Settling(s) => s.wants(),
            WaitPhase::Clock => Some(Action::ReadRtc),
            WaitPhase::Finished(_) | WaitPhase::Poisoned => None,
        }
    }

    pub open spec fn next(self, latch: Latch, reply: Reply) -> (Wait, Latch) {
        match (self.phase, reply) {
            (WaitPhase::Settling(s), _) => {
                let (s2, latch2) = s.next(latch, reply);
                if s2.finished() {
                    let (hit, latch3) = met(self.goal, latch2);
                    (
                        Wait {
                            phase: if hit {
                                WaitPhase::Finished(true)
                            } else {
                                WaitPhase::Clock
                            },
                            ..self
                        },
                        latch3,
                    )
                } else if s2.poisoned() {
                    (Wait { phase: WaitPhase::Poisoned, ..self }, latch2)
                } else {
                    (Wait { phase: WaitPhase::Settling(s2), ..self }, latch2)
                }
            },
            (WaitPhase::Clock, Reply::Rtc { hi, lo, again }) => match rtc::ticks(hi, lo, again) {
                None => (self, latch),
                Some(now) => (
                    Wait {
                        phase: if now >= self.deadline {
                            WaitPhase::Finished(false)
                        } else {
                            WaitPhase::Settling(Settle::Popping)
                        },
                        ..self
                    },
                    latch,
                ),
            },
            _ => (self, latch),
        }
    }

    pub open spec fn wf(self) -> bool {
        self.phase matches WaitPhase::Settling(s) ==> s.wf() && !s.finished() && !s.poisoned()
    }

    /// Starts a wait that ends when `goal` is met or the clock has reached `deadline`.
    pub fn wait_until(deadline: u64, goal: Goal) -> (w: Wait)
        ensures
            w == Wait::waiting(deadline, goal),
    {
        Wait { deadline, goal, phase: WaitPhase::Settling(Settle::Popping) }
    }

    fn take_goal(self, latch: Latch) -> (r: (bool, Latch))
        ensures
            r == met(self.goal, latch),
    {
        match self.goal {
            Goal::Never => (false, latch),
            Goal::BootComp => (latch.bootcomp, Latch { bootcomp: false, ..latch }),
            Goal::Position => (latch.position, Latch { position: false, ..latch }),
            Goal::Ack => (latch.cpufifo_ret.is_some(), latch),
        }
    }

    pub fn action(&self) -> (a: Option<Action>)
        ensures
            a == self.wants(),
    {
        match self.phase {
            WaitPhase::Settling(s) => s.action(),
            WaitPhase::Clock => Some(Action::ReadRtc),
            WaitPhase::Finished(_) | WaitPhase::Poisoned => None,
        }
    }

    pub fn step(self, latch: Latch, reply: Reply) -> (r: (Wait, Latch))
        ensures
            r == self.next(latch, reply),
    {
        match (self.phase, reply) {
            (WaitPhase::Settling(s), _) => {
                let (s2, latch2) = s.step(latch, reply);
                if s2.is_finished() {
                    let (hit, latch3) = self.take_goal(latch2);
                    let phase = if hit {
                        WaitPhase::Finished(true)
                    } else {
                        WaitPhase::Clock
                    };
                    (Wait { phase, ..self }, latch3)
                } else if s2.is_poisoned() {
                    (Wait { phase: WaitPhase::Poisoned, ..self }, latch2)
                } else {
                    (Wait { phase: WaitPhase::Settling(s2), ..self }, latch2)
                }
            },
            (WaitPhase::Clock, Reply::Rtc { hi, lo, again }) => match rtc_now(hi, lo, again) {
                None => (self, latch),
                Some(now) => {
                    let phase = if now >= self.deadline {
                        WaitPhase::Finished(false)
                    } else {
                        WaitPhase::Settling(Settle::Popping)
                    };
                    (Wait { phase, ..self }, latch)
                },
            },
            _ => (self, latch),
        }
    }
}

/// A service that is under way stays well formed, and asks for something until it is over.
pub proof fn law_service_progress(s: Service, latch: Latch, reply: Reply)
    requires
        s.wf(),
    ensures
        s.next(latch, reply).0.wf(),
        s.wants() is None <==> (s == Service::Finished || s == Service::Poisoned),
{
}

/// A wait that is under way stays well formed, and asks for something until it is over.
pub proof fn law_wait_progress(w: Wait, latch: Latch, reply: Reply)
    requires
        w.wf(),
    ensures
        w.next(latch, reply).0.wf(),
        w.wants() is None <==> (w.phase is Finished || w.phase is Poisoned),
{
    if let WaitPhase::Settling(Settle::Serving(s)) = w.phase {
        law_service_progress(s, latch, reply);
    }
}

/// A wait reports failure only on a clock reading at or past its deadline, and success only when
/// its goal is met.
pub proof fn law_wait_outcome(w: Wait, latch: Latch, reply: Reply)
    requires
        w.wf(),
        !(w.phase is Finished),
    ensures
        w.next(latch, reply).0.phase == WaitPhase::Finished(false) ==> {
            &&& reply matches Reply::Rtc { hi, lo, again }
            &&& rtc::ticks(hi, lo, again) matches Some(now)
            &&& now >= w.deadline
        },
        w.next(latch, reply).0.phase == WaitPhase::Finished(true) ==> exists|seen: Latch|
            #[trigger] met(w.goal, seen) == (true, w.next(latch, reply).1),
{
    if let WaitPhase::Settling(s) = w.phase {
        let (s2, latch2) = s.next(latch, reply);
        if s2.finished() {
            assert(met(w.goal, latch2).1 == w.next(latch, reply).1);
        }
    }
}

/// When both kinds of data are requested and the FIFO takes each signal at once, the firmware is
/// told that there is no backup data, gets an empty backup signal, is told that there is no orbit
/// data, and gets an empty orbit signal, in this order; and no request is left.
pub proof fn law_requests_are_answered(latch: Latch)
    requires
        latch.req_backup,
        latch.req_cep,
    ensures
        ({
            let (s0, l0) = Service::serving(latch);
            let (s1, l1) = s0.next(l0, Reply::Done);
            let (s2, l2) = s1.next(l1, Reply::Pushed(true));
            let (s3, l3) = s2.next(l2, Reply::Done);
            let (s4, l4) = s3.next(l3, Reply::Pushed(true));
            &&& s0.wants() == Some(Action::SetRetval(NO_STORED_DATA))
            &&& s1.wants() == Some(Action::Push(proto::signal(DEV_BKUPFILE, 0)))
            &&& s2.wants() == Some(Action::SetRetval(NO_STORED_DATA))
            &&& s3.wants() == Some(Action::Push(proto::signal(DEV_CEP, 0)))
            &&& s4 == Service::Finished
            &&& l4 == Latch { req_backup: false, req_cep: false, ..latch }
        }),
{
}

/// What reaches the firmware when `a` is answered with `reply`: a return value that was set, or a
/// signal that the FIFO took.
pub open spec fn reached(a: Option<Action>, reply: Reply) -> Seq<Action> {
    match (a, reply) {
        (Some(Action::SetRetval(v)), Reply::Done) => seq![Action::SetRetval(v)],
        (Some(Action::Push(words)), Reply::Pushed(true)) => seq![Action::Push(words)],
        _ => Seq::empty(),
    }
}

/// The service and the latch after each of `replies` in turn, and what reached the firmware.
pub open spec fn service_run(s: Service, latch: Latch, replies: Seq<Reply>) -> (
    Service,
    Latch,
    Seq<Action>,
)
    decreases replies.len(),
{
    if replies.len() == 0 {
        (s, latch, Seq::empty())
    } else {
        let (s2, latch2, sent) = service_run(s, latch, replies.drop_last());
        let (s3, latch3) = s2.next(latch2, replies.last());
        (s3, latch3, sent + reached(s2.wants(), replies.last()))
    }
}

/// The answer to a request for the data of `dev`: there is none, and nothing of it follows.
pub open spec fn answer(dev: u32) -> Seq<Action> {
    seq![Action::SetRetval(NO_STORED_DATA), Action::Push(proto::signal(dev, 0))]
}

/// The answer to a request for backup data, if there was one.
pub open spec fn backup_answer(latch: Latch) -> Seq<Action> {
    if latch.req_backup {
        answer(DEV_BKUPFILE)
    } else {
        Seq::empty()
    }
}

/// However often the FIFO refuses a signal, and whatever arrives meanwhile: a service that is over
/// has answered every request that was latched when it began, the one for backup data first, and
/// nothing but an answer has reached the firmware.
pub proof fn law_service_answers(latch: Latch, replies: Seq<Reply>)
    ensures
        ({
            let (s0, l0) = Service::serving(latch);
            let (s, _, sent) = service_run(s0, l0, replies);
            s == Service::Finished ==> {
                ||| sent == backup_answer(latch) + answer(DEV_CEP)
                ||| sent == backup_answer(latch) && !latch.req_cep
            }
        }),
{
    lemma_service_run(latch, replies);
}

proof fn lemma_service_run(latch: Latch, replies: Seq<Reply>)
    ensures
        ({
            let (s0, l0) = Service::serving(latch);
            let (s, l, sent) = service_run(s0, l0, replies);
            let first = backup_answer(latch);
            let told = seq![Action::SetRetval(NO_STORED_DATA)];
            match s {
                Service::BackupRetval => {
                    &&& latch.req_backup
                    &&& sent == Seq::<Action>::empty()
                    &&& latch.req_cep ==> l.req_cep
                },
                Service::BackupSignal(g) => {
                    &&& latch.req_backup
                    &&& sent == told
                    &&& latch.req_cep ==> l.req_cep
                    &&& g.words == proto::signal(DEV_BKUPFILE, 0)
                    &&& g.wants() is Some
                },
                Service::CepRetval => sent == first,
                Service::CepSignal(g) => {
                    &&& sent == first + told
                    &&& g.words == proto::signal(DEV_CEP, 0)
                    &&& g.wants() is Some
                },
                Service::Finished => {
                    ||| sent == first + answer(DEV_CEP)
                    ||| sent == first && !latch.req_cep
                },
                Service::Poisoned => true,
            }
        }),
    decreases replies.len(),
{
    let (s0, l0) = Service::serving(latch);
    let first = backup_answer(latch);
    let told = seq![Action::SetRetval(NO_STORED_DATA)];
    if replies.len() > 0 {
        lemma_service_run(latch, replies.drop_last());
        let (s, l, sent) = service_run(s0, l0, replies.drop_last());
        let last = reached(s.wants(), replies.last());
        assert(sent + Seq::<Action>::empty() =~= sent);
        assert(Seq::<Action>::empty() + told =~= told);
        assert(told + seq![Action::Push(proto::signal(DEV_BKUPFILE, 0))] =~= answer(DEV_BKUPFILE));
        assert(first + told + seq![Action::Push(proto::signal(DEV_CEP, 0))] =~= first + answer(
            DEV_CEP,
        ));
        match s {
            Service::BackupSignal(g) => {
                assert(last == Seq::<Action>::empty() || last == seq![Action::Push(g.words)]);
            },
            Service::CepSignal(g) => {
                assert(last == Seq::<Action>::empty() || last == seq![Action::Push(g.words)]);
            },
            _ => {},
        }
    }
}

/// While a signal is pushed the inbound side is drained after every refusal, so a FIFO that is
/// full because this core does not read cannot stop it.
pub proof fn law_refused_signal_drains(s: SigSend, latch: Latch, left: u32, got: Option<[u32; 2]>)
    requires
        s.phase == (SigPhase::Push { left }),
        left > 1,
    ensures
        ({
            let (s1, l1) = s.next(latch, Reply::Pushed(false));
            let (s2, l2) = s1.next(l1, Reply::Done);
            let (s3, l3) = s2.next(l2, Reply::Words(got));
            &&& s1.wants() == Some(Action::DrainRx)
            &&& s2.wants() == Some(Action::PopMsg)
            &&& s3 == SigSend { phase: SigPhase::Push { left: (left - 1) as u32 }, ..s }
            &&& l3 == looked(latch, got)
        }),
{
}

/// Each notification is remembered on its own: an event changes what stands for it, and nothing
/// else.
pub proof fn law_each_event_is_latched(latch: Latch, ev: Event)
    ensures
        ({
            let l = absorbed(latch, ev);
            &&& l.position == (latch.position || ev == Event::Position)
            &&& l.bootcomp == (latch.bootcomp || ev == Event::BootComp)
            &&& l.req_backup == (latch.req_backup || ev == Event::ReqBackupData)
            &&& l.req_cep == (latch.req_cep || ev == Event::ReqCepData)
            &&& match ev {
                Event::CpuFifoApiRet(code) => l.cpufifo_ret == Some(code),
                _ => l.cpufifo_ret == latch.cpufifo_ret,
            }
        }),
{
}

/// A wait is over when what it is for is latched, and uses that up: the end of the boot and an
/// epoch, but not an acknowledgement. Nothing else that is latched is touched.
pub proof fn law_goals(goal: Goal, latch: Latch)
    ensures
        ({
            let (hit, l) = met(goal, latch);
            &&& hit == match goal {
                Goal::Never => false,
                Goal::BootComp => latch.bootcomp,
                Goal::Position => latch.position,
                Goal::Ack => latch.cpufifo_ret is Some,
            }
            &&& l.bootcomp == (latch.bootcomp && goal != Goal::BootComp)
            &&& l.position == (latch.position && goal != Goal::Position)
            &&& l.cpufifo_ret == latch.cpufifo_ret
            &&& l.req_backup == latch.req_backup
            &&& l.req_cep == latch.req_cep
        }),
{
}

/// What answers a request on the wire: the return value -2, and a signal without a payload, of type
/// 10 for backup data and of type 8 for orbit data.
pub proof fn law_answers_on_the_wire(latch: Latch)
    ensures
        backup_answer(latch).len() == if latch.req_backup {
            2nat
        } else {
            0nat
        },
        latch.req_backup ==> {
            &&& backup_answer(latch)[0] matches Action::SetRetval(v)
            &&& v == -2
            &&& backup_answer(latch)[1] matches Action::Push(w)
            &&& w[0] == 0x1d0a_0000
            &&& w[1] == 0
        },
        answer(DEV_CEP).len() == 2,
        answer(DEV_CEP)[0] matches Action::SetRetval(v) && v == -2,
        answer(DEV_CEP)[1] matches Action::Push(w) && w[0] == 0x1d08_0000 && w[1] == 0,
{
}

/// The push of a signal, the answers to requests, a look after notifications and a wait take no
/// notice of a reply to something that they did not ask for. A signal is pushed at most fifty
/// million times, and never changes.
pub proof fn law_waits_take_only_answers(
    s: SigSend,
    v: Service,
    t: Settle,
    w: Wait,
    latch: Latch,
    reply: Reply,
    sigtype: u32,
    data: u32,
)
    ensures
        !icc::answers(s.wants(), reply) ==> s.next(latch, reply) == (s, latch),
        v.wf() && !icc::answers(v.wants(), reply) ==> v.next(latch, reply) == (v, latch),
        t.wf() && !icc::answers(t.wants(), reply) ==> t.next(latch, reply) == (t, latch),
        w.wf() && !icc::answers(w.wants(), reply) ==> w.next(latch, reply) == (w, latch),
        s.next(latch, reply).0.words == s.words,
        w.next(latch, reply).0.goal == w.goal,
        w.next(latch, reply).0.deadline == w.deadline,
        SigSend::sending(sigtype, data).phase == (SigPhase::Push { left: 50_000_000 }),
{
}

/// A look after the notifications takes them from their own queue until it is empty, and a wait
/// begins with such a look and repeats it after every reading of the clock before the deadline.
pub proof fn law_looks_empty_the_queue(w: Wait, latch: Latch, note: [u32; 2], reply: Reply)
    ensures
        Settle::Popping.wants() == Some(Action::PopMsg),
        Settle::Popping.next(latch, Reply::Words(Some(note))) == (
            Settle::Popping,
            absorbed(latch, proto::meaning(note)),
        ),
        Wait::waiting(w.deadline, w.goal).wants() == Some(Action::PopMsg),
        w.phase is Clock ==> w.wants() == Some(Action::ReadRtc),
        w.phase is Clock && reply is Rtc ==> match w.next(latch, reply).0.phase {
            WaitPhase::Clock => reply->hi != reply->again,
            WaitPhase::Finished(hit) => !hit && reply->hi == reply->again && 32_768 * reply->hi
                + reply->lo as int % 32_768 >= w.deadline,
            WaitPhase::Settling(s) => s == Settle::Popping && 32_768 * reply->hi + reply->lo as int
                % 32_768 < w.deadline,
            WaitPhase::Poisoned => false,
        },
{
}

/// A latch that has seen nothing holds no event, and after one event it holds that event alone.
pub proof fn law_empty_latch_holds_nothing(ev: Event)
    ensures
        ({
            let l = absorbed(Latch::empty(), ev);
            &&& l.position <==> ev is Position
            &&& l.bootcomp <==> ev is BootComp
            &&& l.req_backup <==> ev is ReqBackupData
            &&& l.req_cep <==> ev is ReqCepData
            &&& l.cpufifo_ret == match ev {
                Event::CpuFifoApiRet(ret) => Some(ret),
                _ => None,
            }
        }),
{
}

} // verus!
