//! What may arrive while the driver is at work, and what its waits come to then.
//!
//! A [`Traffic`] is what one look after the notifications meets: those on hand, and what comes in
//! while the requests among them are answered and the FIFO refuses the answers. A wait is a number
//! of such looks with a [`Reading`] of the clock between them.

use vstd::prelude::*;

use crate::gnss::latch;
use crate::gnss::latch::{
    Goal, Latch, Service, Settle, SigPhase, SigSend, Wait, WaitPhase, SIG_PUSH_BUDGET,
};
use crate::gnss::proto;
use crate::gnss::proto::Event;
use crate::gnss::rtc;
use crate::icc::Reply;

verus! {

/// The latch after each of `msgs` in turn.
pub open spec fn heard(latch: Latch, msgs: Seq<[u32; 2]>) -> Latch
    decreases msgs.len(),
{
    if msgs.len() == 0 {
        latch
    } else {
        latch::absorbed(heard(latch, msgs.drop_last()), proto::meaning(msgs.last()))
    }
}

/// The messages among what looks into the queue of notifications gave.
pub open spec fn said(got: Seq<Option<[u32; 2]>>) -> Seq<[u32; 2]>
    decreases got.len(),
{
    if got.len() == 0 {
        Seq::empty()
    } else {
        match got.last() {
            Some(w) => said(got.drop_last()).push(w),
            None => said(got.drop_last()),
        }
    }
}

/// The replies while the FIFO refuses a signal once for each of `got`, which the look after each
/// refusal gives.
pub open spec fn refused(got: Seq<Option<[u32; 2]>>) -> Seq<Reply>
    decreases got.len(),
{
    if got.len() == 0 {
        Seq::empty()
    } else {
        refused(got.drop_last()) + seq![
            Reply::Pushed(false),
            Reply::Done,
            Reply::Words(got.last()),
        ]
    }
}

/// The replies while a signal is pushed that the FIFO takes in the end.
pub open spec fn pushing(got: Seq<Option<[u32; 2]>>) -> Seq<Reply> {
    refused(got).push(Reply::Pushed(true))
}

impl SigSend {
    /// The push and the latch after each of `replies` in turn.
    pub open spec fn run(self, latch: Latch, replies: Seq<Reply>) -> (SigSend, Latch)
        decreases replies.len(),
    {
        if replies.len() == 0 {
            (self, latch)
        } else {
            let (s, l) = self.run(latch, replies.drop_last());
            s.next(l, replies.last())
        }
    }

    spec fn at(self, phase: SigPhase) -> SigSend {
        SigSend { phase, ..self }
    }
}

/// However often a signal is refused within the budget, and whatever the looks between give: once
/// the FIFO takes it, and no earlier, it is sent, and every message that was looked at is latched.
pub proof fn law_signal_is_sent(sigtype: u32, data: u32, latch: Latch, got: Seq<Option<[u32; 2]>>)
    requires
        got.len() < SIG_PUSH_BUDGET,
    ensures
        ({
            let s = SigSend::sending(sigtype, data);
            &&& s.run(latch, pushing(got)) == (
                SigSend { phase: SigPhase::Sent, ..s },
                heard(latch, said(got)),
            )
            &&& s.run(latch, pushing(got).drop_last()).0.wants() is Some
        }),
{
    let s = SigSend::sending(sigtype, data);
    lemma_refused(s, latch, got);
    assert(pushing(got).drop_last() =~= refused(got));
}

proof fn lemma_refused(s: SigSend, latch: Latch, got: Seq<Option<[u32; 2]>>)
    requires
        s.phase == (SigPhase::Push { left: SIG_PUSH_BUDGET }),
        got.len() < SIG_PUSH_BUDGET,
    ensures
        s.run(latch, refused(got)) == (
            s.at(SigPhase::Push { left: (SIG_PUSH_BUDGET - got.len()) as u32 }),
            heard(latch, said(got)),
        ),
    decreases got.len(),
{
    if got.len() > 0 {
        let before = refused(got.drop_last());
        let three = seq![Reply::Pushed(false), Reply::Done, Reply::Words(got.last())];
        let all = refused(got);
        lemma_refused(s, latch, got.drop_last());
        assert(all == before + three);
        assert(all.drop_last().drop_last().drop_last() =~= before);
        assert(all.drop_last().drop_last().last() == Reply::Pushed(false));
        assert(all.drop_last().last() == Reply::Done);
        assert(all.last() == Reply::Words(got.last()));
        reveal_with_fuel(SigSend::run, 4);
        if let Some(w) = got.last() {
            assert(said(got).drop_last() =~= said(got.drop_last()));
        }
    }
}

/// What one look after the notifications meets. A look empties the queue and then answers the
/// requests.
pub struct Traffic {
    /// The notifications on hand, in order.
    pub notes: Seq<[u32; 2]>,
    /// If backup data is asked for: what is looked at after each refusal of the signal that
    /// answers this.
    pub backup: Option<Seq<Option<[u32; 2]>>>,
    /// If orbit data is asked for: what is looked at after each refusal of the signal that answers
    /// this.
    pub cep: Option<Seq<Option<[u32; 2]>>>,
}

/// The replies while an answer is given, if there is one.
pub open spec fn answering(got: Option<Seq<Option<[u32; 2]>>>) -> Seq<Reply> {
    match got {
        Some(g) => seq![Reply::Done] + pushing(g),
        None => Seq::empty(),
    }
}

/// The messages that come in while an answer is given, if there is one.
pub open spec fn said_meanwhile(got: Option<Seq<Option<[u32; 2]>>>) -> Seq<[u32; 2]> {
    match got {
        Some(g) => said(g),
        None => Seq::empty(),
    }
}

impl Traffic {
    /// The replies to the look and to the answers.
    pub open spec fn replies(self) -> Seq<Reply> {
        self.popping() + answering(self.backup) + answering(self.cep)
    }

    /// The replies while the queue is emptied.
    pub open spec fn popping(self) -> Seq<Reply> {
        self.notes.map_values(|w: [u32; 2]| Reply::Words(Some(w))).push(Reply::Words(None))
    }

    /// Every message that comes in, in order.
    pub open spec fn messages(self) -> Seq<[u32; 2]> {
        self.notes + said_meanwhile(self.backup) + said_meanwhile(self.cep)
    }

    /// The latch once the backup request is answered, if there was one.
    pub open spec fn backed(self, latch: Latch) -> Latch {
        let popped = heard(latch, self.notes);
        match self.backup {
            Some(g) => heard(Latch { req_backup: false, ..popped }, said(g)),
            None => popped,
        }
    }

    /// The latch after it all.
    pub open spec fn after(self, latch: Latch) -> Latch {
        let backed = self.backed(latch);
        match self.cep {
            Some(g) => heard(Latch { req_cep: false, ..backed }, said(g)),
            None => backed,
        }
    }

    /// Whether exactly the requests that are latched are answered, and the FIFO takes each answer
    /// before the transport counts as dead.
    pub open spec fn wf(self, latch: Latch) -> bool {
        &&& self.backup is Some <==> heard(latch, self.notes).req_backup
        &&& self.cep is Some <==> self.backed(latch).req_cep
        &&& self.backup matches Some(g) ==> g.len() < SIG_PUSH_BUDGET
        &&& self.cep matches Some(g) ==> g.len() < SIG_PUSH_BUDGET
    }
}

/// Whether `ev` is announced by one of `msgs`.
pub open spec fn announced(msgs: Seq<[u32; 2]>, ev: Event) -> bool {
    exists|i: int| 0 <= i < msgs.len() && #[trigger] proto::meaning(msgs[i]) == ev
}

/// The return code of the last acknowledgement among `msgs`, or `earlier` if there is none.
pub open spec fn last_ack(earlier: Option<i32>, msgs: Seq<[u32; 2]>) -> Option<i32>
    decreases msgs.len(),
{
    if msgs.len() == 0 {
        earlier
    } else {
        match proto::meaning(msgs.last()) {
            Event::CpuFifoApiRet(code) => Some(code),
            _ => last_ack(earlier, msgs.drop_last()),
        }
    }
}

/// Nothing that comes in is lost: whenever it arrives, an epoch, the end of the boot and the last
/// acknowledgement are latched.
pub proof fn law_traffic_is_latched(t: Traffic, latch: Latch)
    ensures
        t.after(latch).position == (latch.position || announced(t.messages(), Event::Position)),
        t.after(latch).bootcomp == (latch.bootcomp || announced(t.messages(), Event::BootComp)),
        t.after(latch).cpufifo_ret == last_ack(latch.cpufifo_ret, t.messages()),
{
    let (m1, m2, m3) = (t.notes, said_meanwhile(t.backup), said_meanwhile(t.cep));
    let l1 = heard(latch, m1);
    let l2 = if t.backup is Some {
        Latch { req_backup: false, ..l1 }
    } else {
        l1
    };
    let l3 = heard(l2, m2);
    let l4 = if t.cep is Some {
        Latch { req_cep: false, ..l3 }
    } else {
        l3
    };
    lemma_heard(latch, m1);
    lemma_heard(l2, m2);
    lemma_heard(l4, m3);
    assert(t.after(latch) == heard(l4, m3));
    lemma_announced_concat(m1, m2, Event::Position);
    lemma_announced_concat(m1 + m2, m3, Event::Position);
    lemma_announced_concat(m1, m2, Event::BootComp);
    lemma_announced_concat(m1 + m2, m3, Event::BootComp);
    lemma_last_ack_concat(latch.cpufifo_ret, m1, m2);
    lemma_last_ack_concat(latch.cpufifo_ret, m1 + m2, m3);
}

proof fn lemma_heard(latch: Latch, msgs: Seq<[u32; 2]>)
    ensures
        heard(latch, msgs).position == (latch.position || announced(msgs, Event::Position)),
        heard(latch, msgs).bootcomp == (latch.bootcomp || announced(msgs, Event::BootComp)),
        heard(latch, msgs).cpufifo_ret == last_ack(latch.cpufifo_ret, msgs),
    decreases msgs.len(),
{
    if msgs.len() > 0 {
        let before = msgs.drop_last();
        lemma_heard(latch, before);
        assert(before + seq![msgs.last()] =~= msgs);
        lemma_announced_concat(before, seq![msgs.last()], Event::Position);
        lemma_announced_concat(before, seq![msgs.last()], Event::BootComp);
        assert(seq![msgs.last()][0] == msgs.last());
        assert(proto::meaning(seq![msgs.last()][0]) == proto::meaning(msgs.last()));
    }
}

proof fn lemma_announced_concat(first: Seq<[u32; 2]>, second: Seq<[u32; 2]>, ev: Event)
    ensures
        announced(first + second, ev) == (announced(first, ev) || announced(second, ev)),
{
    let all = first + second;
    if announced(first, ev) {
        let i = choose|i: int| 0 <= i < first.len() && #[trigger] proto::meaning(first[i]) == ev;
        assert(proto::meaning(all[i]) == ev);
    }
    if announced(second, ev) {
        let i = choose|i: int| 0 <= i < second.len() && #[trigger] proto::meaning(second[i]) == ev;
        assert(proto::meaning(all[first.len() + i]) == ev);
    }
    if announced(all, ev) {
        let i = choose|i: int| 0 <= i < all.len() && #[trigger] proto::meaning(all[i]) == ev;
        if i < first.len() {
            assert(proto::meaning(first[i]) == ev);
        } else {
            assert(proto::meaning(second[i - first.len()]) == ev);
        }
    }
}

proof fn lemma_last_ack_concat(
    earlier: Option<i32>,
    first: Seq<[u32; 2]>,
    second: Seq<[u32; 2]>,
)
    ensures
        last_ack(earlier, first + second) == last_ack(last_ack(earlier, first), second),
    decreases second.len(),
{
    if second.len() == 0 {
        assert(first + second =~= first);
    } else {
        assert((first + second).drop_last() =~= first + second.drop_last());
        lemma_last_ack_concat(earlier, first, second.drop_last());
    }
}

impl Settle {
    /// The look and the latch after each of `replies` in turn.
    pub open spec fn run(self, latch: Latch, replies: Seq<Reply>) -> (Settle, Latch)
        decreases replies.len(),
    {
        if replies.len() == 0 {
            (self, latch)
        } else {
            let (s, l) = self.run(latch, replies.drop_last());
            s.next(l, replies.last())
        }
    }

    /// Whether the look is over.
    pub open spec fn over(self) -> bool {
        self.finished() || self.poisoned()
    }

    /// The look while the answer `s` is pushed.
    spec fn pushes(cep: bool, s: SigSend) -> Settle {
        if cep {
            Settle::Serving(Service::CepSignal(s))
        } else {
            Settle::Serving(Service::BackupSignal(s))
        }
    }

    /// The look while the return value for an answer has yet to be set.
    spec fn tells(cep: bool) -> Settle {
        if cep {
            Settle::Serving(Service::CepRetval)
        } else {
            Settle::Serving(Service::BackupRetval)
        }
    }
}

proof fn lemma_settle_concat(s: Settle, latch: Latch, first: Seq<Reply>, second: Seq<Reply>)
    ensures
        s.run(latch, first + second) == ({
            let (s1, l1) = s.run(latch, first);
            s1.run(l1, second)
        }),
    decreases second.len(),
{
    if second.len() == 0 {
        assert(first + second =~= first);
    } else {
        assert((first + second).drop_last() =~= first + second.drop_last());
        lemma_settle_concat(s, latch, first, second.drop_last());
    }
}

proof fn lemma_settle_pops(latch: Latch, notes: Seq<[u32; 2]>)
    ensures
        Settle::Popping.run(latch, notes.map_values(|w: [u32; 2]| Reply::Words(Some(w)))) == (
            Settle::Popping,
            heard(latch, notes),
        ),
    decreases notes.len(),
{
    if notes.len() > 0 {
        let all = notes.map_values(|w: [u32; 2]| Reply::Words(Some(w)));
        lemma_settle_pops(latch, notes.drop_last());
        assert(all.drop_last() =~= notes.drop_last().map_values(
            |w: [u32; 2]| Reply::Words(Some(w)),
        ));
    }
}

proof fn lemma_settle_pushes(cep: bool, s: SigSend, latch: Latch, replies: Seq<Reply>)
    requires
        s.run(latch, replies).0.wants() is Some,
    ensures
        Settle::pushes(cep, s).run(latch, replies) == ({
            let (s1, l1) = s.run(latch, replies);
            (Settle::pushes(cep, s1), l1)
        }),
    decreases replies.len(),
{
    if replies.len() > 0 {
        lemma_settle_pushes(cep, s, latch, replies.drop_last());
    }
}

/// An answer, up to where the FIFO takes it.
proof fn lemma_settle_answers(cep: bool, latch: Latch, got: Seq<Option<[u32; 2]>>)
    requires
        got.len() < SIG_PUSH_BUDGET,
    ensures
        ({
            let (s, l) = Settle::tells(cep).run(latch, answering(Some(got)).drop_last());
            &&& !s.over()
            &&& s.next(l, Reply::Pushed(true)) == if cep {
                (Settle::Serving(Service::Finished), heard(latch, said(got)))
            } else {
                let (s2, l2) = Service::serving_cep(heard(latch, said(got)));
                (Settle::Serving(s2), l2)
            }
        }),
        answering(Some(got)).last() == Reply::Pushed(true),
{
    let dev = if cep {
        proto::DEV_CEP
    } else {
        proto::DEV_BKUPFILE
    };
    let s = SigSend::sending(dev, 0);
    assert(answering(Some(got)).drop_last() =~= seq![Reply::Done] + refused(got));
    lemma_settle_concat(Settle::tells(cep), latch, seq![Reply::Done], refused(got));
    assert(seq![Reply::Done].drop_last() =~= Seq::<Reply>::empty());
    reveal_with_fuel(Settle::run, 2);
    assert(Settle::tells(cep).run(latch, seq![Reply::Done]) == (Settle::pushes(cep, s), latch));
    lemma_refused(s, latch, got);
    lemma_settle_pushes(cep, s, latch, refused(got));
}

/// Whatever comes in, and however often the FIFO refuses an answer within the budget: a look after
/// the notifications ends with the answer to the last request, no earlier, and leaves the latch
/// that its traffic leaves.
pub proof fn law_look_ends(t: Traffic, latch: Latch)
    requires
        t.wf(latch),
    ensures
        t.replies().len() > 0,
        Settle::Popping.run(latch, t.replies()) == (
            Settle::Serving(Service::Finished),
            t.after(latch),
        ),
        !Settle::Popping.run(latch, t.replies().drop_last()).0.over(),
{
    let start = Settle::Popping;
    let popped = heard(latch, t.notes);
    lemma_settle_pops(latch, t.notes);
    assert(t.popping().drop_last() =~= t.notes.map_values(|w: [u32; 2]| Reply::Words(Some(w))));
    let (s1, l1) = start.run(latch, t.popping());
    assert((s1, l1) == ({
        let (s, l) = Service::serving(popped);
        (Settle::Serving(s), l)
    }));
    match (t.backup, t.cep) {
        (None, None) => {
            assert(t.replies() =~= t.popping());
        },
        (Some(g), None) => {
            let a = answering(Some(g));
            assert(t.replies() =~= t.popping() + a);
            assert(t.replies().drop_last() =~= t.popping() + a.drop_last());
            lemma_settle_answers(false, l1, g);
            lemma_settle_concat(start, latch, t.popping(), a.drop_last());
        },
        (None, Some(g)) => {
            let a = answering(Some(g));
            assert(t.replies() =~= t.popping() + a);
            assert(t.replies().drop_last() =~= t.popping() + a.drop_last());
            lemma_settle_answers(true, l1, g);
            lemma_settle_concat(start, latch, t.popping(), a.drop_last());
        },
        (Some(g), Some(h)) => {
            let a = answering(Some(g));
            let b = answering(Some(h));
            lemma_settle_answers(false, l1, g);
            lemma_settle_concat(start, latch, t.popping(), a);
            let (s2, l2) = start.run(latch, t.popping() + a);
            assert((s2, l2) == (
                Settle::tells(true),
                Latch { req_cep: false, ..t.backed(latch) },
            ));
            assert(t.replies().drop_last() =~= t.popping() + a + b.drop_last());
            lemma_settle_answers(true, l2, h);
            lemma_settle_concat(start, latch, t.popping() + a, b.drop_last());
        },
    }
}

/// A reading of the clock: the counters are read until they did not move in between.
pub struct Reading {
    /// The replies that show no tick.
    pub torn: Seq<Reply>,
    /// The reply that shows one.
    pub shown: Reply,
    pub tick: u64,
}

impl Reading {
    /// The replies.
    pub open spec fn replies(self) -> Seq<Reply> {
        self.torn.push(self.shown)
    }

    /// Whether the last reply, and no other, shows the tick.
    pub open spec fn wf(self) -> bool {
        &&& forall|i: int| 0 <= i < self.torn.len() ==> rtc::is_torn(#[trigger] self.torn[i])
        &&& rtc::shows(self.shown, self.tick)
    }
}

/// One round of a wait that does not end it: a look after the notifications, and a reading of the
/// clock.
pub struct Round {
    pub traffic: Traffic,
    pub reading: Reading,
}

impl Round {
    /// The replies.
    pub open spec fn replies(self) -> Seq<Reply> {
        self.traffic.replies() + self.reading.replies()
    }

    /// Whether a wait for `goal` that stands at `latch` comes to the reading of the clock.
    pub open spec fn wf(self, goal: Goal, latch: Latch) -> bool {
        &&& self.traffic.wf(latch)
        &&& !latch::met(goal, self.traffic.after(latch)).0
        &&& self.reading.wf()
    }
}

/// The replies of rounds.
pub open spec fn all_replies(rounds: Seq<Round>) -> Seq<Reply>
    decreases rounds.len(),
{
    if rounds.len() == 0 {
        Seq::empty()
    } else {
        all_replies(rounds.drop_last()) + rounds.last().replies()
    }
}

/// The latch after rounds that do not meet a goal.
pub open spec fn latch_after(latch: Latch, rounds: Seq<Round>) -> Latch
    decreases rounds.len(),
{
    if rounds.len() == 0 {
        latch
    } else {
        rounds.last().traffic.after(latch_after(latch, rounds.drop_last()))
    }
}

/// Whether none of `rounds` ends a wait: the goal is not met, and the clock shows ticks before the
/// deadline.
pub open spec fn goes_on(goal: Goal, deadline: int, latch: Latch, rounds: Seq<Round>) -> bool
    decreases rounds.len(),
{
    rounds.len() > 0 ==> {
        &&& goes_on(goal, deadline, latch, rounds.drop_last())
        &&& rounds.last().wf(goal, latch_after(latch, rounds.drop_last()))
        &&& rounds.last().reading.tick < deadline
    }
}

impl Wait {
    /// The wait and the latch after each of `replies` in turn.
    pub open spec fn run(self, latch: Latch, replies: Seq<Reply>) -> (Wait, Latch)
        decreases replies.len(),
    {
        if replies.len() == 0 {
            (self, latch)
        } else {
            let (w, l) = self.run(latch, replies.drop_last());
            w.next(l, replies.last())
        }
    }

    /// Whether the wait is over.
    pub open spec fn over(self) -> bool {
        self.phase is Finished || self.phase is Poisoned
    }

    /// The same wait in another phase.
    pub open spec fn at(self, phase: WaitPhase) -> Wait {
        Wait { phase, ..self }
    }
}

proof fn lemma_wait_concat(w: Wait, latch: Latch, first: Seq<Reply>, second: Seq<Reply>)
    ensures
        w.run(latch, first + second) == ({
            let (w1, l1) = w.run(latch, first);
            w1.run(l1, second)
        }),
    decreases second.len(),
{
    if second.len() == 0 {
        assert(first + second =~= first);
    } else {
        assert((first + second).drop_last() =~= first + second.drop_last());
        lemma_wait_concat(w, latch, first, second.drop_last());
    }
}

proof fn lemma_wait_settles(w: Wait, s: Settle, latch: Latch, replies: Seq<Reply>)
    requires
        w.phase == WaitPhase::Settling(s),
        !s.run(latch, replies).0.over(),
    ensures
        w.run(latch, replies) == ({
            let (s1, l1) = s.run(latch, replies);
            (w.at(WaitPhase::Settling(s1)), l1)
        }),
    decreases replies.len(),
{
    if replies.len() > 0 {
        lemma_wait_settles(w, s, latch, replies.drop_last());
    }
}

proof fn lemma_wait_looks(w: Wait, latch: Latch, t: Traffic)
    requires
        w.phase == WaitPhase::Settling(Settle::Popping),
        t.wf(latch),
    ensures
        w.run(latch, t.replies()) == ({
            let (hit, l) = latch::met(w.goal, t.after(latch));
            (
                w.at(
                    if hit {
                        WaitPhase::Finished(true)
                    } else {
                        WaitPhase::Clock
                    },
                ),
                l,
            )
        }),
        !w.run(latch, t.replies().drop_last()).0.over(),
{
    law_look_ends(t, latch);
    lemma_wait_settles(w, Settle::Popping, latch, t.replies().drop_last());
}

proof fn lemma_wait_reads(w: Wait, latch: Latch, torn: Seq<Reply>)
    requires
        w.phase == WaitPhase::Clock,
        forall|i: int| 0 <= i < torn.len() ==> rtc::is_torn(#[trigger] torn[i]),
    ensures
        w.run(latch, torn) == (w, latch),
    decreases torn.len(),
{
    if torn.len() > 0 {
        lemma_wait_reads(w, latch, torn.drop_last());
        assert(rtc::is_torn(torn[torn.len() - 1]));
    }
}

/// A round, up to the last reply of its clock reading.
proof fn lemma_wait_round(w: Wait, latch: Latch, r: Round)
    requires
        w.phase == WaitPhase::Settling(Settle::Popping),
        r.wf(w.goal, latch),
    ensures
        w.run(latch, r.replies().drop_last()) == (
            w.at(WaitPhase::Clock),
            r.traffic.after(latch),
        ),
        r.replies().last() == r.reading.shown,
{
    let clock = w.at(WaitPhase::Clock);
    let l = r.traffic.after(latch);
    lemma_wait_looks(w, latch, r.traffic);
    assert(latch::met(w.goal, l).1 == l);
    assert(r.replies().drop_last() =~= r.traffic.replies() + r.reading.torn);
    lemma_wait_concat(w, latch, r.traffic.replies(), r.reading.torn);
    lemma_wait_reads(clock, l, r.reading.torn);
}

proof fn lemma_wait_goes_on(w: Wait, latch: Latch, rounds: Seq<Round>)
    requires
        w.phase == WaitPhase::Settling(Settle::Popping),
        goes_on(w.goal, w.deadline as int, latch, rounds),
    ensures
        w.run(latch, all_replies(rounds)) == (w, latch_after(latch, rounds)),
    decreases rounds.len(),
{
    if rounds.len() > 0 {
        let before = rounds.drop_last();
        let last = rounds.last();
        let l = latch_after(latch, before);
        lemma_wait_goes_on(w, latch, before);
        lemma_wait_concat(w, latch, all_replies(before), last.replies());
        lemma_wait_round(w, l, last);
        assert(last.replies().len() > 0);
    }
}

/// Whatever comes in meanwhile, and however many rounds go before: a wait whose goal is met by what
/// a look finds ends with that look, no earlier, and uses its goal up.
pub proof fn law_wait_is_met(
    deadline: u64,
    goal: Goal,
    latch: Latch,
    rounds: Seq<Round>,
    last: Traffic,
)
    requires
        goes_on(goal, deadline as int, latch, rounds),
        last.wf(latch_after(latch, rounds)),
        latch::met(goal, last.after(latch_after(latch, rounds))).0,
    ensures
        ({
            let w = Wait::waiting(deadline, goal);
            let replies = all_replies(rounds) + last.replies();
            &&& replies.len() > 0
            &&& w.run(latch, replies) == (
                w.at(WaitPhase::Finished(true)),
                latch::met(goal, last.after(latch_after(latch, rounds))).1,
            )
            &&& !w.run(latch, replies.drop_last()).0.over()
        }),
{
    let w = Wait::waiting(deadline, goal);
    let a = all_replies(rounds);
    let l = latch_after(latch, rounds);
    lemma_wait_goes_on(w, latch, rounds);
    law_look_ends(last, l);
    lemma_wait_looks(w, l, last);
    lemma_wait_concat(w, latch, a, last.replies());
    assert((a + last.replies()).drop_last() =~= a + last.replies().drop_last());
    lemma_wait_concat(w, latch, a, last.replies().drop_last());
}

/// Whatever comes in meanwhile, and however many rounds go before: a wait whose goal is not met
/// ends with the first reading of the clock that shows the deadline or a later tick, and no
/// earlier.
pub proof fn law_wait_times_out(
    deadline: u64,
    goal: Goal,
    latch: Latch,
    rounds: Seq<Round>,
    last: Round,
)
    requires
        goes_on(goal, deadline as int, latch, rounds),
        last.wf(goal, latch_after(latch, rounds)),
        last.reading.tick >= deadline,
    ensures
        ({
            let w = Wait::waiting(deadline, goal);
            let replies = all_replies(rounds) + last.replies();
            &&& replies.len() > 0
            &&& w.run(latch, replies) == (
                w.at(WaitPhase::Finished(false)),
                last.traffic.after(latch_after(latch, rounds)),
            )
            &&& !w.run(latch, replies.drop_last()).0.over()
        }),
{
    let w = Wait::waiting(deadline, goal);
    let a = all_replies(rounds);
    let l = latch_after(latch, rounds);
    lemma_wait_goes_on(w, latch, rounds);
    lemma_wait_round(w, l, last);
    assert(last.replies().len() > 0);
    assert((a + last.replies()).drop_last() =~= a + last.replies().drop_last());
    assert((a + last.replies()).last() == last.replies().last());
    lemma_wait_concat(w, latch, a, last.replies().drop_last());
}

/// A request is latched whenever it arrives, as is everything else that a message can announce.
pub proof fn law_messages_are_latched(latch: Latch, msgs: Seq<[u32; 2]>)
    ensures
        heard(latch, msgs).position == (latch.position || announced(msgs, Event::Position)),
        heard(latch, msgs).bootcomp == (latch.bootcomp || announced(msgs, Event::BootComp)),
        heard(latch, msgs).cpufifo_ret == last_ack(latch.cpufifo_ret, msgs),
        heard(latch, msgs).req_backup == (latch.req_backup || announced(
            msgs,
            Event::ReqBackupData,
        )),
        heard(latch, msgs).req_cep == (latch.req_cep || announced(msgs, Event::ReqCepData)),
    decreases msgs.len(),
{
    lemma_heard(latch, msgs);
    if msgs.len() > 0 {
        let before = msgs.drop_last();
        let last = seq![msgs.last()];
        law_messages_are_latched(latch, before);
        assert(before + last =~= msgs);
        lemma_announced_concat(before, last, Event::ReqBackupData);
        lemma_announced_concat(before, last, Event::ReqCepData);
        assert(last[0] == msgs.last());
        assert(proto::meaning(last[0]) == proto::meaning(msgs.last()));
    }
}

/// A signal that the FIFO refuses fifty million times is given up, and not before.
pub proof fn law_signal_is_given_up(
    sigtype: u32,
    data: u32,
    latch: Latch,
    got: Seq<Option<[u32; 2]>>,
)
    requires
        got.len() <= 50_000_000,
    ensures
        SigSend::sending(sigtype, data).run(latch, refused(got)).0.phase is Jammed <==> got.len()
            == 50_000_000,
{
    let s = SigSend::sending(sigtype, data);
    if got.len() < 50_000_000 {
        lemma_refused(s, latch, got);
    } else {
        let all = refused(got);
        let before = refused(got.drop_last());
        lemma_refused(s, latch, got.drop_last());
        assert(all.drop_last().drop_last().drop_last() =~= before);
        assert(all.drop_last().drop_last().last() == Reply::Pushed(false));
        assert(all.drop_last().last() == Reply::Done);
        assert(all.last() == Reply::Words(got.last()));
        reveal_with_fuel(SigSend::run, 4);
    }
}

} // verus!
