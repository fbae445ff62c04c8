//! Remote calls into the firmware of another core.
//!
//! A call fills a [`FarMsg`], hands its address to the target core with a mailbox message, waits
//! for the completion event, and acknowledges that event. [`FarCall`] is the whole exchange as a
//! sequence of primitive operations: [`FarCall::action`] says what to do next, and
//! [`FarCall::step`] takes what came of it.
//!
//! A [`FarapiError::Timeout`] means that the caller stopped waiting, not that the firmware stopped
//! working: it may still read the message block and the argument buffer, and write through them.
//! Both must therefore outlive a call that timed out.

use vstd::prelude::*;

use crate::icc;
use crate::icc::{pack_word0, Action, Reply, PROTO_FLG, PROTO_MBX};

verus! {

/// The core that runs the system and I/O firmware.
pub const CPUID_SYSIOP: u32 = 0;

/// The mailbox that the message block names.
pub const MBXID: i16 = 0;

/// The low nibble of a completion event, and of the flag id that asks for it.
pub const FLAG_MAGIC: u32 = 7;

/// How often each phase of a call tries before it gives up, unless the caller says otherwise.
pub const DEFAULT_POLL_BUDGET: u32 = 5_000_000;

/// Message id of a request that hands over a message block.
const MSGID_REQUEST: u32 = 0x40;

/// The request's low half: one block, for the first handler.
const PDATA_REQUEST: u32 = 0x101;

/// Message id of an acknowledgement.
const MSGID_ACK: u32 = 0x50;

/// Why a call failed.
#[derive(Clone, Copy, Debug, PartialEq, Eq, Structural)]
pub enum FarapiError {
    /// A phase of the call used up its budget.
    Timeout,
}

/// The part of a message block that names the function to run.
#[derive(Clone, Copy, Debug, PartialEq, Eq, Structural)]
pub struct ApiMsg {
    pub id: i32,
    /// Address of the argument buffer.
    pub arg: u32,
    pub mbxid: i16,
    pub flagid: i16,
    pub flagbitno: i32,
}

/// A message block, as the firmware reads it.
#[derive(Clone, Copy, Debug, PartialEq, Eq, Structural)]
pub struct FarMsg {
    /// Address of the next block: none is ever chained.
    pub next: u32,
    pub cpuid: i32,
    pub modid: i32,
    pub api: ApiMsg,
}

/// Where a call stands.
#[derive(Clone, Copy, Debug)]
pub enum Phase {
    /// The message block has no address yet.
    Publish,
    /// The block stands at `addr`, and its contents have yet to be ordered before the request.
    Fence { addr: u32 },
    /// Event flags that an earlier exchange left behind are being thrown away.
    Purge { addr: u32 },
    /// The request has `left` tries.
    Request { addr: u32, left: u32 },
    /// The FIFO refused the request; `left` tries remain.
    RequestDrain { addr: u32, left: u32 },
    /// The completion event is awaited for `left` more polls.
    Wait { left: u32 },
    /// The event arrived, and its acknowledgement has `left` tries.
    Ack { event: [u32; 2], left: u32 },
    /// The FIFO refused the acknowledgement; `left` tries remain.
    AckDrain { event: [u32; 2], left: u32 },
    /// What the firmware wrote has yet to be ordered before the caller's reads.
    Settle,
    /// The call is over.
    Finished(Result<(), FarapiError>),
}

/// One remote call.
#[derive(Clone, Copy, Debug)]
pub struct FarCall {
    pub msg: FarMsg,
    pub dest_cpu: u32,
    pub budget: u32,
    pub phase: Phase,
}

/// The value of the low sixteen bits of `n`, read as a signed number.
pub open spec fn low_half_signed(n: int) -> int {
    let low = n % 0x1_0000;
    if low >= 0x8000 {
        low - 0x1_0000
    } else {
        low
    }
}

/// The message block of a call from core `cpuid`.
pub open spec fn block_for(cpuid: u8, modid: i32, api_id: i32, arg: u32) -> FarMsg {
    FarMsg {
        next: 0,
        cpuid: cpuid as i32,
        modid,
        api: ApiMsg {
            id: api_id,
            arg,
            mbxid: MBXID,
            flagid: low_half_signed((cpuid + 1) * 256 + FLAG_MAGIC) as i16,
            flagbitno: 0,
        },
    }
}

/// The mailbox message that hands the block at `addr` to core `dest_cpu`.
pub open spec fn request_words(dest_cpu: u32, addr: u32) -> [u32; 2] {
    [
        icc::word0(dest_cpu as int % 16, PROTO_MBX as int, 0x40, 0x101) as u32,
        addr,
    ]
}

/// Whether an event-flag message completes a call.
pub open spec fn completes(event: [u32; 2]) -> bool {
    event[0] % 16 == FLAG_MAGIC
}

/// The acknowledgement of an event: back to its sender, with the second byte of its word 0.
pub open spec fn ack_words(event: [u32; 2]) -> [u32; 2] {
    [
        icc::word0(
            icc::cpu_of(event[0]),
            PROTO_FLG as int,
            0x50,
            event[0] as int / 256 % 256 * 256,
        ) as u32,
        0,
    ]
}

/// One try fewer, and never fewer than none.
pub open spec fn one_less(left: u32) -> u32 {
    if left == 0 {
        0
    } else {
        (left - 1) as u32
    }
}

impl FarCall {
    /// The call, once it is over.
    pub open spec fn result(self) -> Option<Result<(), FarapiError>> {
        match self.phase {
            Phase::Finished(r) => Some(r),
            _ => None,
        }
    }

    /// What the call asks for next.
    pub open spec fn wants(self) -> Option<Action> {
        match self.phase {
            Phase::Publish => Some(Action::Publish(self.msg)),
            Phase::Fence { .. } => Some(Action::Barrier),
            Phase::Purge { .. } => Some(Action::PopFlg),
            Phase::Request { addr, .. } => Some(Action::Push(request_words(self.dest_cpu, addr))),
            Phase::RequestDrain { .. } => Some(Action::DrainRx),
            Phase::Wait { .. } => Some(Action::PopFlg),
            Phase::Ack { event, .. } => Some(Action::Push(ack_words(event))),
            Phase::AckDrain { .. } => Some(Action::DrainRx),
            Phase::Settle => Some(Action::Barrier),
            Phase::Finished(_) => None,
        }
    }

    /// The same call in another phase.
    pub open spec fn at(self, phase: Phase) -> FarCall {
        FarCall { phase, ..self }
    }

    /// The call after `reply`.
    pub open spec fn next(self, reply: Reply) -> FarCall {
        let timeout = self.at(Phase::Finished(Err(FarapiError::Timeout)));
        match (self.phase, reply) {
            (Phase::Publish, Reply::Address(addr)) => self.at(Phase::Fence { addr }),
            (Phase::Fence { addr }, Reply::Done) => self.at(Phase::Purge { addr }),
            (Phase::Purge { addr }, Reply::Words(stale)) => if stale is Some {
                self
            } else if self.budget == 0 {
                timeout
            } else {
                self.at(Phase::Request { addr, left: self.budget })
            },
            (Phase::Request { addr, left }, Reply::Pushed(taken)) => if taken {
                self.at(Phase::Wait { left: self.budget })
            } else {
                self.at(Phase::RequestDrain { addr, left: one_less(left) })
            },
            (Phase::RequestDrain { addr, left }, Reply::Done) => if left == 0 {
                timeout
            } else {
                self.at(Phase::Request { addr, left })
            },
            (Phase::Wait { left }, Reply::Words(got)) => match got {
                Some(event) if completes(event) => self.at(
                    Phase::Ack { event, left: self.budget },
                ),
                _ => if left <= 1 {
                    timeout
                } else {
                    self.at(Phase::Wait { left: (left - 1) as u32 })
                },
            },
            (Phase::Ack { event, left }, Reply::Pushed(taken)) => if taken {
                self.at(Phase::Settle)
            } else {
                self.at(Phase::AckDrain { event, left: one_less(left) })
            },
            (Phase::AckDrain { event, left }, Reply::Done) => if left == 0 {
                timeout
            } else {
                self.at(Phase::Ack { event, left })
            },
            (Phase::Settle, Reply::Done) => self.at(Phase::Finished(Ok(()))),
            _ => self,
        }
    }

    /// The call after each of `replies` in turn.
    pub open spec fn run(self, replies: Seq<Reply>) -> FarCall
        decreases replies.len(),
    {
        if replies.len() == 0 {
            self
        } else {
            self.next(replies[0]).run(replies.drop_first())
        }
    }

    /// What the next operation of this call is, or `None` once it is over.
    pub fn action(&self) -> (a: Option<Action>)
        ensures
            a == self.wants(),
    {
        match self.phase {
            Phase::Publish => Some(Action::Publish(self.msg)),
            Phase::Fence { .. } => Some(Action::Barrier),
            Phase::Purge { .. } => Some(Action::PopFlg),
            Phase::Request { addr, .. } => {
                let w0: u32 = pack_word0(self.dest_cpu, PROTO_MBX, MSGID_REQUEST, PDATA_REQUEST);
                Some(Action::Push([w0, addr]))
            },
            Phase::RequestDrain { .. } => Some(Action::DrainRx),
            Phase::Wait { .. } => Some(Action::PopFlg),
            Phase::Ack { event, .. } => Some(Action::Push(acknowledge(event))),
            Phase::AckDrain { .. } => Some(Action::DrainRx),
            Phase::Settle => Some(Action::Barrier),
            Phase::Finished(_) => None,
        }
    }

    /// Takes the reply to the last operation. A reply to some other operation changes nothing.
    pub fn step(self, reply: Reply) -> (r: FarCall)
        ensures
            r == self.next(reply),
    {
        let timeout = Phase::Finished(Err(FarapiError::Timeout));
        let phase = match (self.phase, reply) {
            (Phase::Publish, Reply::Address(addr)) => Phase::Fence { addr },
            (Phase::Fence { addr }, Reply::Done) => Phase::Purge { addr },
            (Phase::Purge { addr }, Reply::Words(stale)) => if stale.is_some() {
                self.phase
            } else if self.budget == 0 {
                timeout
            } else {
                Phase::Request { addr, left: self.budget }
            },
            (Phase::Request { addr, left }, Reply::Pushed(taken)) => if taken {
                Phase::Wait { left: self.budget }
            } else {
                Phase::RequestDrain { addr, left: less_one(left) }
            },
            (Phase::RequestDrain { addr, left }, Reply::Done) => if left == 0 {
                timeout
            } else {
                Phase::Request { addr, left }
            },
            (Phase::Wait { left }, Reply::Words(got)) => {
                let event = match got {
                    Some(event) => if is_completion(event) {
                        Some(event)
                    } else {
                        None
                    },
                    None => None,
                };
                match event {
                    Some(event) => Phase::Ack { event, left: self.budget },
                    None => if left <= 1 {
                        timeout
                    } else {
                        Phase::Wait { left: left - 1 }
                    },
                }
            },
            (Phase::Ack { event, left }, Reply::Pushed(taken)) => if taken {
                Phase::Settle
            } else {
                Phase::AckDrain { event, left: less_one(left) }
            },
            (Phase::AckDrain { event, left }, Reply::Done) => if left == 0 {
                timeout
            } else {
                Phase::Ack { event, left }
            },
            (Phase::Settle, Reply::Done) => Phase::Finished(Ok(())),
            _ => self.phase,
        };
        FarCall { phase, ..self }
    }

    /// How the call ended, or `None` while it runs.
    pub fn outcome(&self) -> (r: Option<Result<(), FarapiError>>)
        ensures
            r == self.result(),
    {
        match self.phase {
            Phase::Finished(r) => Some(r),
            _ => None,
        }
    }
}

fn less_one(left: u32) -> (r: u32)
    ensures
        r == one_less(left),
{
    if left == 0 {
        0
    } else {
        left - 1
    }
}

/// Whether an event-flag message completes a call.
pub fn is_completion(event: [u32; 2]) -> (r: bool)
    ensures
        r == completes(event),
{
    proof {
        icc::lemma_fields(event[0]);
    }
    event[0] & 0xf == FLAG_MAGIC
}

/// The acknowledgement of an event.
pub fn acknowledge(event: [u32; 2]) -> (r: [u32; 2])
    ensures
        r == ack_words(event),
{
    proof {
        icc::lemma_fields(event[0]);
    }
    let w0: u32 = event[0];
    [pack_word0((w0 >> 28) & 0xf, PROTO_FLG, MSGID_ACK, w0 & 0xff00), 0]
}

/// Starts a call of function `api_id` of module `modid` on the system and I/O core.
///
/// `cpuid` is the raw id of the calling core, `arg` the address of its argument buffer, and
/// `budget` how often each of the three phases (request, completion, acknowledgement) tries.
pub fn call(cpuid: u8, modid: i32, api_id: i32, arg: u32, budget: u32) -> (c: FarCall)
    ensures
        c == (FarCall {
            msg: block_for(cpuid, modid, api_id, arg),
            dest_cpu: CPUID_SYSIOP,
            budget,
            phase: Phase::Publish,
        }),
{
    call_to(CPUID_SYSIOP, cpuid, modid, api_id, arg, budget)
}

/// Starts a call on core `dest_cpu`: see [`call`].
pub fn call_to(dest_cpu: u32, cpuid: u8, modid: i32, api_id: i32, arg: u32, budget: u32) -> (c:
    FarCall)
    ensures
        c == (FarCall {
            msg: block_for(cpuid, modid, api_id, arg),
            dest_cpu,
            budget,
            phase: Phase::Publish,
        }),
{
    let base: u32 = cpuid as u32 + 1;
    let id: u32 = (base << 8) | FLAG_MAGIC;
    let flagid: i16 = #[verifier::truncate] (id as i16);
    proof {
        assert((base << 8) | 7 == base * 256 + 7) by (bit_vector)
            requires
                base <= 256,
        ;
        assert(flagid == if id % 0x1_0000 >= 0x8000 {
            id % 0x1_0000 - 0x1_0000
        } else {
            id % 0x1_0000 + 0
        }) by (bit_vector)
            requires
                flagid == id as i16,
        ;
    }
    FarCall {
        msg: FarMsg {
            next: 0,
            cpuid: cpuid as i32,
            modid,
            api: ApiMsg { id: api_id, arg, mbxid: MBXID, flagid, flagbitno: 0 },
        },
        dest_cpu,
        budget,
        phase: Phase::Publish,
    }
}

/// Running on two sequences of replies is running on the first, then on the second.
proof fn lemma_run_concat(call: FarCall, first: Seq<Reply>, second: Seq<Reply>)
    ensures
        call.run(first + second) == call.run(first).run(second),
    decreases first.len(),
{
    if first.len() == 0 {
        assert(first + second =~= second);
    } else {
        assert((first + second).drop_first() =~= first.drop_first() + second);
        lemma_run_concat(call.next(first[0]), first.drop_first(), second);
    }
}

/// Running on one reply more is one step more.
pub(crate) proof fn lemma_run_push(call: FarCall, replies: Seq<Reply>, reply: Reply)
    ensures
        call.run(replies.push(reply)) == call.run(replies).next(reply),
{
    assert(replies.push(reply) =~= replies + seq![reply]);
    lemma_run_concat(call, replies, seq![reply]);
    assert(seq![reply].drop_first() =~= Seq::<Reply>::empty());
    reveal_with_fuel(FarCall::run, 2);
}

/// The replies of a FIFO that refuses a message `times` times.
pub open spec fn refusals(times: nat) -> Seq<Reply>
    decreases times,
{
    if times == 0 {
        Seq::empty()
    } else {
        seq![Reply::Pushed(false), Reply::Done] + refusals((times - 1) as nat)
    }
}

/// The replies of an event-flag queue that hands out `got`, one entry for each poll.
pub open spec fn polls(got: Seq<Option<[u32; 2]>>) -> Seq<Reply> {
    got.map_values(|g: Option<[u32; 2]>| Reply::Words(g))
}

/// Whether nothing among `got` completes a call.
pub open spec fn none_completes(got: Seq<Option<[u32; 2]>>) -> bool {
    forall|i: int| 0 <= i < got.len() ==> (#[trigger] got[i] matches Some(e) ==> !completes(e))
}

proof fn lemma_request_refused(call: FarCall, addr: u32, left: u32, times: nat)
    requires
        call.phase == (Phase::Request { addr, left }),
        times <= left,
        left > 0,
    ensures
        times < left ==> call.run(refusals(times)) == call.at(
            Phase::Request { addr, left: (left - times) as u32 },
        ),
        times == left ==> call.run(refusals(times)) == call.at(
            Phase::Finished(Err(FarapiError::Timeout)),
        ),
    decreases times,
{
    if times > 0 {
        let pair = seq![Reply::Pushed(false), Reply::Done];
        lemma_run_concat(call, pair, refusals((times - 1) as nat));
        assert(pair.drop_first() =~= seq![Reply::Done]);
        assert(seq![Reply::Done].drop_first() =~= Seq::<Reply>::empty());
        reveal_with_fuel(FarCall::run, 3);
        if left > 1 {
            lemma_request_refused(call.run(pair), addr, (left - 1) as u32, (times - 1) as nat);
        }
    }
}

proof fn lemma_ack_refused(call: FarCall, event: [u32; 2], left: u32, times: nat)
    requires
        call.phase == (Phase::Ack { event, left }),
        times <= left,
        left > 0,
    ensures
        times < left ==> call.run(refusals(times)) == call.at(
            Phase::Ack { event, left: (left - times) as u32 },
        ),
        times == left ==> call.run(refusals(times)) == call.at(
            Phase::Finished(Err(FarapiError::Timeout)),
        ),
    decreases times,
{
    if times > 0 {
        let pair = seq![Reply::Pushed(false), Reply::Done];
        lemma_run_concat(call, pair, refusals((times - 1) as nat));
        assert(pair.drop_first() =~= seq![Reply::Done]);
        assert(seq![Reply::Done].drop_first() =~= Seq::<Reply>::empty());
        reveal_with_fuel(FarCall::run, 3);
        if left > 1 {
            lemma_ack_refused(call.run(pair), event, (left - 1) as u32, (times - 1) as nat);
        }
    }
}

proof fn lemma_wait_missed(call: FarCall, left: u32, got: Seq<Option<[u32; 2]>>)
    requires
        call.phase == (Phase::Wait { left }),
        got.len() <= left,
        left > 0,
        none_completes(got),
    ensures
        got.len() < left ==> call.run(polls(got)) == call.at(
            Phase::Wait { left: (left - got.len()) as u32 },
        ),
        got.len() == left ==> call.run(polls(got)) == call.at(
            Phase::Finished(Err(FarapiError::Timeout)),
        ),
    decreases got.len(),
{
    if got.len() > 0 {
        assert(polls(got).drop_first() =~= polls(got.drop_first()));
        assert(got[0] matches Some(e) ==> !completes(e));
        if left > 1 {
            lemma_wait_missed(
                call.next(polls(got)[0]),
                (left - 1) as u32,
                got.drop_first(),
            );
        } else {
            assert(polls(got.drop_first()).len() == 0);
        }
    }
}

proof fn lemma_purge(call: FarCall, addr: u32, stale: Seq<[u32; 2]>)
    requires
        call.phase == (Phase::Purge { addr }),
    ensures
        call.run(polls(stale.map_values(|e: [u32; 2]| Some(e)))) == call,
    decreases stale.len(),
{
    let replies = polls(stale.map_values(|e: [u32; 2]| Some(e)));
    if stale.len() > 0 {
        assert(replies.drop_first() =~= polls(
            stale.drop_first().map_values(|e: [u32; 2]| Some(e)),
        ));
        lemma_purge(call, addr, stale.drop_first());
    }
}

/// The replies that bring a call to its request: the block lands at `addr`, and the event flags
/// `stale` are still queued from earlier.
pub open spec fn opening(addr: u32, stale: Seq<[u32; 2]>) -> Seq<Reply> {
    seq![Reply::Address(addr), Reply::Done] + polls(stale.map_values(|e: [u32; 2]| Some(e))) + seq![
        Reply::Words(None),
    ]
}

proof fn lemma_opening(call: FarCall, addr: u32, stale: Seq<[u32; 2]>)
    requires
        call.phase == Phase::Publish,
    ensures
        call.run(opening(addr, stale)) == if call.budget == 0 {
            call.at(Phase::Finished(Err(FarapiError::Timeout)))
        } else {
            call.at(Phase::Request { addr, left: call.budget })
        },
{
    let head = seq![Reply::Address(addr), Reply::Done];
    let middle = polls(stale.map_values(|e: [u32; 2]| Some(e)));
    let tail = seq![Reply::Words(None)];
    lemma_run_concat(call, head + middle, tail);
    lemma_run_concat(call, head, middle);
    assert(head.drop_first() =~= seq![Reply::Done]);
    assert(seq![Reply::Done].drop_first() =~= Seq::<Reply>::empty());
    assert(tail.drop_first() =~= Seq::<Reply>::empty());
    reveal_with_fuel(FarCall::run, 3);
    lemma_purge(call.run(head), addr, stale);
}

/// What a call meets: the block lands at `addr`, the event flags `stale` are still queued from
/// earlier, the request is refused `refused` times, the polls `missed` do not complete the call,
/// `event` does, and the acknowledgement is refused `ack_refused` times.
pub struct Encounter {
    pub addr: u32,
    pub stale: Seq<[u32; 2]>,
    pub refused: nat,
    pub missed: Seq<Option<[u32; 2]>>,
    pub event: [u32; 2],
    pub ack_refused: nat,
}

impl Encounter {
    /// Whether a call that tries `budget` times in each of its phases is completed.
    pub open spec fn wf(self, budget: u32) -> bool {
        &&& self.refused < budget
        &&& self.missed.len() < budget
        &&& none_completes(self.missed)
        &&& completes(self.event)
        &&& self.ack_refused < budget
    }

    /// The replies up to the acknowledgement.
    pub open spec fn replies(self) -> Seq<Reply> {
        opening(self.addr, self.stale) + refusals(self.refused) + seq![Reply::Pushed(true)] + polls(
            self.missed,
        ) + seq![Reply::Words(Some(self.event))] + refusals(self.ack_refused) + seq![
            Reply::Pushed(true),
        ]
    }
}

/// A call succeeds if its request is taken within the budget, an event that completes it arrives
/// within the budget after that, and the acknowledgement is taken within the budget after that.
/// Event flags that were queued before the request, completions among them, play no part. The
/// barrier after the acknowledgement ends the call, and nothing before it does.
pub proof fn law_call_completes(call: FarCall, x: Encounter)
    requires
        call.phase == Phase::Publish,
        x.wf(call.budget),
    ensures
        call.run(x.replies()) == call.at(Phase::Settle),
        call.run(x.replies().push(Reply::Done)).result() == Some(Ok::<(), FarapiError>(())),
{
    let a = opening(x.addr, x.stale);
    let b = refusals(x.refused);
    let c = seq![Reply::Pushed(true)];
    let d = polls(x.missed);
    let e = seq![Reply::Words(Some(x.event))];
    let f = refusals(x.ack_refused);
    let g = seq![Reply::Pushed(true)];
    lemma_run_concat(call, a + b + c + d + e + f, g);
    lemma_run_concat(call, a + b + c + d + e, f);
    lemma_run_concat(call, a + b + c + d, e);
    lemma_run_concat(call, a + b + c, d);
    lemma_run_concat(call, a + b, c);
    lemma_run_concat(call, a, b);
    lemma_opening(call, x.addr, x.stale);
    lemma_request_refused(call.run(a), x.addr, call.budget, x.refused);
    assert(c.drop_first() =~= Seq::<Reply>::empty());
    assert(e.drop_first() =~= Seq::<Reply>::empty());
    assert(g.drop_first() =~= Seq::<Reply>::empty());
    reveal_with_fuel(FarCall::run, 3);
    lemma_wait_missed(call.run(a + b + c), call.budget, x.missed);
    lemma_ack_refused(call.run(a + b + c + d + e), x.event, call.budget, x.ack_refused);
    lemma_run_push(call, x.replies(), Reply::Done);
}

/// A call whose request is refused as often as the budget allows times out, and has sent nothing
/// else. With no budget it times out before the request.
pub proof fn law_request_times_out(call: FarCall, addr: u32, stale: Seq<[u32; 2]>)
    requires
        call.phase == Phase::Publish,
    ensures
        call.run(opening(addr, stale) + refusals(call.budget as nat)).result() == Some(
            Err::<(), FarapiError>(FarapiError::Timeout),
        ),
{
    lemma_run_concat(call, opening(addr, stale), refusals(call.budget as nat));
    lemma_opening(call, addr, stale);
    if call.budget > 0 {
        lemma_request_refused(
            call.run(opening(addr, stale)),
            addr,
            call.budget,
            call.budget as nat,
        );
    }
}

/// A call that sees no completion in as many polls as the budget allows times out.
pub proof fn law_completion_times_out(
    call: FarCall,
    addr: u32,
    stale: Seq<[u32; 2]>,
    refused: nat,
    missed: Seq<Option<[u32; 2]>>,
)
    requires
        call.phase == Phase::Publish,
        refused < call.budget,
        missed.len() == call.budget,
        none_completes(missed),
    ensures
        call.run(
            opening(addr, stale) + refusals(refused) + seq![Reply::Pushed(true)] + polls(missed),
        ).result() == Some(Err::<(), FarapiError>(FarapiError::Timeout)),
{
    let a = opening(addr, stale);
    let b = refusals(refused);
    let c = seq![Reply::Pushed(true)];
    lemma_run_concat(call, a + b + c, polls(missed));
    lemma_run_concat(call, a + b, c);
    lemma_run_concat(call, a, b);
    lemma_opening(call, addr, stale);
    lemma_request_refused(call.run(a), addr, call.budget, refused);
    assert(c.drop_first() =~= Seq::<Reply>::empty());
    reveal_with_fuel(FarCall::run, 2);
    lemma_wait_missed(call.run(a + b + c), call.budget, missed);
}

/// A call whose acknowledgement is refused as often as the budget allows times out.
pub proof fn law_ack_times_out(
    call: FarCall,
    addr: u32,
    stale: Seq<[u32; 2]>,
    refused: nat,
    missed: Seq<Option<[u32; 2]>>,
    event: [u32; 2],
)
    requires
        call.phase == Phase::Publish,
        refused < call.budget,
        missed.len() < call.budget,
        none_completes(missed),
        completes(event),
    ensures
        call.run(
            opening(addr, stale) + refusals(refused) + seq![Reply::Pushed(true)] + polls(missed)
                + seq![Reply::Words(Some(event))] + refusals(call.budget as nat),
        ).result() == Some(Err::<(), FarapiError>(FarapiError::Timeout)),
{
    let a = opening(addr, stale);
    let b = refusals(refused);
    let c = seq![Reply::Pushed(true)];
    let d = polls(missed);
    let e = seq![Reply::Words(Some(event))];
    lemma_run_concat(call, a + b + c + d + e, refusals(call.budget as nat));
    lemma_run_concat(call, a + b + c + d, e);
    lemma_run_concat(call, a + b + c, d);
    lemma_run_concat(call, a + b, c);
    lemma_run_concat(call, a, b);
    lemma_opening(call, addr, stale);
    lemma_request_refused(call.run(a), addr, call.budget, refused);
    assert(c.drop_first() =~= Seq::<Reply>::empty());
    assert(e.drop_first() =~= Seq::<Reply>::empty());
    reveal_with_fuel(FarCall::run, 2);
    lemma_wait_missed(call.run(a + b + c), call.budget, missed);
    lemma_ack_refused(call.run(a + b + c + d + e), event, call.budget, call.budget as nat);
}

impl FarCall {
    /// Whether each count of tries is within the budget, and an event that is being acknowledged
    /// is a completion.
    pub open spec fn wf(self) -> bool {
        match self.phase {
            Phase::Request { left, .. } => 0 < left <= self.budget,
            Phase::RequestDrain { left, .. } => left < self.budget,
            Phase::Wait { left } => 0 < left <= self.budget,
            Phase::Ack { event, left } => 0 < left <= self.budget && completes(event),
            Phase::AckDrain { event, left } => left < self.budget && completes(event),
            _ => true,
        }
    }

    /// An upper bound on the pushes and polls that the call can still make once the queue of
    /// stale event flags is empty.
    pub open spec fn tries_left(self) -> int {
        match self.phase {
            Phase::Publish | Phase::Fence { .. } | Phase::Purge { .. } => 3 * self.budget,
            Phase::Request { left, .. } => left + 2 * self.budget,
            Phase::RequestDrain { left, .. } => left + 2 * self.budget,
            Phase::Wait { left } => left + self.budget,
            Phase::Ack { left, .. } => left as int,
            Phase::AckDrain { left, .. } => left as int,
            Phase::Settle | Phase::Finished(_) => 0,
        }
    }
}

/// Every step keeps a call well formed; a call that is not over asks for something; and once the
/// stale event flags are gone, each answered push or poll uses up one of at most three budgets.
pub proof fn law_call_is_bounded(call: FarCall, reply: Reply)
    requires
        call.wf(),
    ensures
        call.next(reply).wf(),
        call.wants() is None <==> call.result() is Some,
        0 <= call.next(reply).tries_left() <= call.tries_left() <= 3 * call.budget,
        call.next(reply).budget == call.budget,
        (call.wants() matches Some(Action::Push(_)) && reply is Pushed)
            ==> call.next(reply).tries_left() < call.tries_left(),
        (call.phase is Wait && reply is Words) ==> call.next(reply).tries_left()
            < call.tries_left(),
{
}

/// A call pushes nothing but its request and the acknowledgement of a completion that it was
/// handed.
pub proof fn law_call_pushes(call: FarCall, replies: Seq<Reply>)
    requires
        call.phase == Phase::Publish,
    ensures
        call.run(replies).wants() matches Some(Action::Push(w)) ==> {
            ||| exists|addr: u32|
                replies.contains(Reply::Address(addr)) && w == #[trigger] request_words(
                    call.dest_cpu,
                    addr,
                )
            ||| exists|event: [u32; 2]|
                replies.contains(Reply::Words(Some(event))) && completes(event)
                    && w == #[trigger] ack_words(event)
        },
{
    lemma_call_history(call, replies);
}

/// What the phase of a call says of the replies so far.
spec fn history(call: FarCall, replies: Seq<Reply>) -> bool {
    match call.phase {
        Phase::Fence { addr }
        | Phase::Purge { addr }
        | Phase::Request { addr, .. }
        | Phase::RequestDrain { addr, .. } => replies.contains(Reply::Address(addr)),
        Phase::Ack { event, .. } | Phase::AckDrain { event, .. } => replies.contains(
            Reply::Words(Some(event)),
        ) && completes(event),
        _ => true,
    }
}

proof fn lemma_call_history(call: FarCall, replies: Seq<Reply>)
    requires
        call.phase == Phase::Publish,
    ensures
        history(call.run(replies), replies),
        call.run(replies).dest_cpu == call.dest_cpu,
    decreases replies.len(),
{
    if replies.len() > 0 {
        let before = replies.drop_last();
        lemma_call_history(call, before);
        assert(before.push(replies.last()) =~= replies);
        lemma_run_push(call, before, replies.last());
        assert(replies.contains(replies.last()));
        assert(forall|r: Reply| before.contains(r) ==> replies.contains(r)) by {
            assert(forall|i: int| 0 <= i < before.len() ==> before[i] == replies[i]);
        }
    }
}

/// The message block of a call names the function, its argument buffer and the calling core, asks
/// for a completion event whose flag id is 256 times one more than that core, plus 7, and chains no
/// other block.
pub proof fn law_block_names_the_function(cpuid: u8, modid: i32, api_id: i32, arg: u32)
    ensures
        ({
            let m = block_for(cpuid, modid, api_id, arg);
            &&& m.next == 0
            &&& m.cpuid == cpuid
            &&& m.modid == modid
            &&& m.api.id == api_id
            &&& m.api.arg == arg
            &&& m.api.mbxid == 0
            &&& m.api.flagbitno == 0
            &&& cpuid < 127 ==> m.api.flagid == 256 * (cpuid + 1) + 7
            &&& (256 * (cpuid + 1) + 7 - m.api.flagid) % 65_536 == 0
        }),
{
}

/// The request goes to the core that is called, as a mailbox message with id 0x40 that carries the
/// address of the block.
pub proof fn law_request_is_routed(call: FarCall, addr: u32, left: u32)
    requires
        call.phase == (Phase::Request { addr, left }),
    ensures
        call.wants() is Some,
        call.wants()->0 is Push,
        ({
            let w = call.wants()->0->Push_0;
            &&& w[0] as int / 268_435_456 == call.dest_cpu as int % 16
            &&& w[0] as int / 16_777_216 % 16 == 1
            &&& w[0] as int / 65_536 % 256 == 0x40
            &&& w[0] as int % 65_536 == 0x101
            &&& w[1] == addr
        }),
{
}

/// The acknowledgement of an event goes back to the core that the event came from, as an event-flag
/// message with id 0x50 that carries the second byte of the event's word 0 in its place.
pub proof fn law_acknowledgement_goes_back(call: FarCall, event: [u32; 2], left: u32)
    requires
        call.phase == (Phase::Ack { event, left }),
    ensures
        call.wants() is Some,
        call.wants()->0 is Push,
        call.wants()->0->Push_0 == ack_words(event),
        ({
            let w = ack_words(event);
            &&& w[0] as int / 268_435_456 == event[0] as int / 268_435_456
            &&& w[0] as int / 16_777_216 % 16 == 3
            &&& w[0] as int / 65_536 % 256 == 0x50
            &&& w[0] as int / 256 % 256 == event[0] as int / 256 % 256
            &&& w[0] as int % 256 == 0
            &&& w[1] == 0
        }),
{
}

/// A call that waits goes on to the acknowledgement exactly on an event whose lowest nibble is 7,
/// and acknowledges that event with a budget of its own.
pub proof fn law_completion_is_recognised(call: FarCall, left: u32, event: [u32; 2])
    requires
        call.phase == (Phase::Wait { left }),
    ensures
        event[0] as int % 16 == 7 ==> call.next(Reply::Words(Some(event))).phase == (Phase::Ack {
            event,
            left: call.budget,
        }),
        event[0] as int % 16 != 7 ==> !(call.next(Reply::Words(Some(event))).phase is Ack),
{
}

/// A call takes no notice of a reply to something that it did not ask for, and never changes what
/// it calls.
pub proof fn law_call_takes_only_answers(call: FarCall, reply: Reply)
    ensures
        !icc::answers(call.wants(), reply) ==> call.next(reply) == call,
        call.next(reply).msg == call.msg,
        call.next(reply).dest_cpu == call.dest_cpu,
        call.next(reply).budget == call.budget,
{
}

/// What comes of `a` when it is answered with `reply`: a block that has its address, a barrier, or
/// a message that the FIFO took.
pub open spec fn effect(a: Option<Action>, reply: Reply) -> Seq<Action> {
    match (a, reply) {
        (Some(Action::Publish(m)), Reply::Address(_)) => seq![Action::Publish(m)],
        (Some(Action::Barrier), Reply::Done) => seq![Action::Barrier],
        (Some(Action::Push(w)), Reply::Pushed(true)) => seq![Action::Push(w)],
        _ => Seq::empty(),
    }
}

/// What came of a call during `replies`, in order.
pub open spec fn effects(call: FarCall, replies: Seq<Reply>) -> Seq<Action>
    decreases replies.len(),
{
    if replies.len() == 0 {
        Seq::empty()
    } else {
        effects(call, replies.drop_last()) + effect(
            call.run(replies.drop_last()).wants(),
            replies.last(),
        )
    }
}

/// What a call does, whatever is refused and whatever else arrives. A call that succeeded has
/// published its block, made it visible, handed its address to the core that is called, sent one
/// acknowledgement back to the core from which the completion came, and ordered the results before
/// the caller's reads: this, in this order, and nothing else. A call that failed has not
/// acknowledged anything.
pub proof fn law_call_effects(call: FarCall, replies: Seq<Reply>)
    requires
        call.phase == Phase::Publish,
    ensures
        ({
            let done = effects(call, replies);
            match call.run(replies).result() {
                Some(Ok(_)) => {
                    &&& done.len() == 5
                    &&& done[0] == Action::Publish(call.msg)
                    &&& done[1] == Action::Barrier
                    &&& done[2] matches Action::Push(w)
                    &&& w[0] as int / 268_435_456 == call.dest_cpu as int % 16
                    &&& w[0] as int / 16_777_216 % 16 == 1
                    &&& replies.contains(Reply::Address(w[1]))
                    &&& done[3] matches Action::Push(a)
                    &&& exists|event: [u32; 2]|
                        {
                            &&& #[trigger] replies.contains(Reply::Words(Some(event)))
                            &&& event[0] as int % 16 == 7
                            &&& a[0] as int / 268_435_456 == event[0] as int / 268_435_456
                            &&& a[0] as int / 16_777_216 % 16 == 3
                            &&& a[0] as int / 256 % 256 == event[0] as int / 256 % 256
                        }
                    &&& done[4] == Action::Barrier
                },
                Some(Err(_)) => 2 <= done.len() <= 3,
                None => done.len() <= 4,
            }
        }),
{
    lemma_call_trace(call, replies);
}

/// What came of a call, given its phase and the address and the event that it met.
spec fn trace(call: FarCall, addr: u32, event: [u32; 2], done: Seq<Action>) -> bool {
    let publish = Action::Publish(call.msg);
    let request = Action::Push(request_words(call.dest_cpu, addr));
    let ack = Action::Push(ack_words(event));
    match call.phase {
        Phase::Publish => done =~= Seq::<Action>::empty(),
        Phase::Fence { addr: a } => a == addr && done =~= seq![publish],
        Phase::Purge { addr: a } => a == addr && done =~= seq![publish, Action::Barrier],
        Phase::Request { addr: a, .. } | Phase::RequestDrain { addr: a, .. } => a == addr && done
            =~= seq![publish, Action::Barrier],
        Phase::Wait { .. } => done =~= seq![publish, Action::Barrier, request],
        Phase::Ack { event: e, .. } | Phase::AckDrain { event: e, .. } => e == event && done =~= seq![
            publish,
            Action::Barrier,
            request,
        ],
        Phase::Settle => done =~= seq![publish, Action::Barrier, request, ack],
        Phase::Finished(Ok(_)) => done =~= seq![
            publish,
            Action::Barrier,
            request,
            ack,
            Action::Barrier,
        ],
        Phase::Finished(Err(_)) => done =~= seq![publish, Action::Barrier] || done =~= seq![
            publish,
            Action::Barrier,
            request,
        ],
    }
}

/// Whether the phase is past the publication, or past the completion.
spec fn met(call: FarCall, replies: Seq<Reply>, addr: u32, event: [u32; 2]) -> bool {
    &&& !(call.phase is Publish) ==> replies.contains(Reply::Address(addr))
    &&& match call.phase {
        Phase::Ack { .. }
        | Phase::AckDrain { .. }
        | Phase::Settle
        | Phase::Finished(Ok(_)) => replies.contains(Reply::Words(Some(event))) && completes(event),
        _ => true,
    }
}

proof fn lemma_call_trace(call: FarCall, replies: Seq<Reply>)
    requires
        call.phase == Phase::Publish,
    ensures
        exists|addr: u32, event: [u32; 2]|
            {
                &&& #[trigger] trace(call.run(replies), addr, event, effects(call, replies))
                &&& met(call.run(replies), replies, addr, event)
            },
        call.run(replies).msg == call.msg,
        call.run(replies).dest_cpu == call.dest_cpu,
    decreases replies.len(),
{
    if replies.len() == 0 {
        assert(trace(call, 0, [0, 0], effects(call, replies)));
        assert(met(call, replies, 0, [0, 0]));
    } else {
        let before = replies.drop_last();
        let reply = replies.last();
        lemma_call_trace(call, before);
        let c = call.run(before);
        let (addr, event) = choose|addr: u32, event: [u32; 2]|
            {
                &&& #[trigger] trace(c, addr, event, effects(call, before))
                &&& met(c, before, addr, event)
            };
        assert(before.push(reply) =~= replies);
        lemma_run_push(call, before, reply);
        assert(replies.contains(reply));
        assert(forall|r: Reply| before.contains(r) ==> replies.contains(r)) by {
            assert(forall|i: int| 0 <= i < before.len() ==> before[i] == replies[i]);
        }
        let addr2 = match (c.phase, reply) {
            (Phase::Publish, Reply::Address(a)) => a,
            _ => addr,
        };
        let event2 = match (c.phase, reply) {
            (Phase::Wait { .. }, Reply::Words(Some(e))) => e,
            _ => event,
        };
        let done = effects(call, before);
        let step = effect(c.wants(), reply);
        assert(done + Seq::<Action>::empty() =~= done);
        assert(step.len() == 1 ==> done + step =~= done.push(step[0]));
        assert(trace(call.run(replies), addr2, event2, effects(call, replies)));
        assert(met(call.run(replies), replies, addr2, event2));
    }
}

/// Where a call looks and what it does about a full FIFO: event flags left over and the completion
/// are looked for among the event flags, and each refusal is followed by a drain of what is
/// inbound.
pub proof fn law_call_drains_and_polls(call: FarCall, addr: u32, event: [u32; 2], left: u32)
    ensures
        call.phase == (Phase::Purge { addr }) ==> call.wants() == Some(Action::PopFlg),
        call.phase == (Phase::Wait { left }) ==> call.wants() == Some(Action::PopFlg),
        call.phase == (Phase::Request { addr, left }) ==> call.next(Reply::Pushed(false)).wants()
            == Some(Action::DrainRx),
        call.phase == (Phase::Ack { event, left }) ==> call.next(Reply::Pushed(false)).wants()
            == Some(Action::DrainRx),
        left > 0 ==> one_less(left) == left - 1,
        one_less(0) == 0,
{
}

} // verus!
