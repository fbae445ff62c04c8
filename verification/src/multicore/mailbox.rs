//! The mailbox between cores: raw two-word messages, and a typed channel on top of them.
//!
//! Every core sees its own pair of FIFOs. A pushed message goes to the core that its word 0 names,
//! and arrives with the sender's id in that place. The interrupt line `FIFO_FROM` is active while
//! this core's receive FIFO holds something, `FIFO_TO` while its transmit FIFO has room.
//!
//! [`Mailbox`] is the raw exchange; it takes whatever comes. [`Inbox`] and [`Outbox`] are the typed
//! channel, on protocol 14. The receive interrupt moves messages from the FIFO into a ring of each
//! core; when the ring is full it masks the line and leaves the rest in the FIFO, so senders find
//! it full in turn. Taking a message out of a ring that was full unmasks the line again.

use vstd::prelude::*;

use crate::icc;
use crate::icc::PROTO_USER;
use crate::multicore::cpu::Core;

verus! {

/// The transmit FIFO is full.
#[derive(Clone, Copy, Debug, PartialEq, Eq, Structural)]
pub struct Full;

/// One access to the FIFO's registers. The comment on each names the [`FifoReply`] that answers
/// it. The accesses of one exchange must not be interleaved with those of another on the same
/// core.
#[derive(Clone, Copy, Debug, PartialEq, Eq, Structural)]
pub enum FifoAction {
    /// Read whether the transmit FIFO is full: [`FifoReply::Bits`].
    ReadPushFull,
    /// Write the first word of a message: [`FifoReply::Done`].
    WritePush0(u32),
    /// Write the second word of a message: [`FifoReply::Done`].
    WritePush1(u32),
    /// Send the message off: [`FifoReply::Done`].
    CompletePush,
    /// Read whether the receive FIFO is empty: [`FifoReply::Bits`].
    ReadPullEmpty,
    /// Read the first word of a message: [`FifoReply::Bits`].
    ReadPull0,
    /// Read the second word of a message: [`FifoReply::Bits`].
    ReadPull1,
    /// Take the message out of the FIFO: [`FifoReply::Done`].
    CompletePull,
}

/// The answer to a [`FifoAction`].
#[derive(Clone, Copy, Debug, PartialEq, Eq, Structural)]
pub enum FifoReply {
    Bits(u32),
    Done,
}

/// Where sending a raw message stands.
#[derive(Clone, Copy, Debug, PartialEq, Eq)]
pub enum SendPhase {
    Check,
    Word0,
    Word1,
    Complete,
    Finished(Result<(), Full>),
}

/// Sending one raw message. It waits for room if `wait` is set.
#[derive(Clone, Copy, Debug)]
pub struct RawSend {
    pub words: [u32; 2],
    pub wait: bool,
    pub phase: SendPhase,
}

impl RawSend {
    pub open spec fn starting(words: [u32; 2], wait: bool) -> RawSend {
        RawSend { words, wait, phase: SendPhase::Check }
    }

    pub open spec fn at(self, phase: SendPhase) -> RawSend {
        RawSend { phase, ..self }
    }

    pub open spec fn wants(self) -> Option<FifoAction> {
        match self.phase {
            SendPhase::Check => Some(FifoAction::ReadPushFull),
            SendPhase::Word0 => Some(FifoAction::WritePush0(self.words[0])),
            SendPhase::Word1 => Some(FifoAction::WritePush1(self.words[1])),
            SendPhase::Complete => Some(FifoAction::CompletePush),
            SendPhase::Finished(_) => None,
        }
    }

    pub open spec fn next(self, reply: FifoReply) -> RawSend {
        match (self.phase, reply) {
            (SendPhase::Check, FifoReply::Bits(full)) => if full == 0 {
                self.at(SendPhase::Word0)
            } else if self.wait {
                self
            } else {
                self.at(SendPhase::Finished(Err(Full)))
            },
            (SendPhase::Word0, FifoReply::Done) => self.at(SendPhase::Word1),
            (SendPhase::Word1, FifoReply::Done) => self.at(SendPhase::Complete),
            (SendPhase::Complete, FifoReply::Done) => self.at(SendPhase::Finished(Ok(()))),
            _ => self,
        }
    }

    /// The next access, or `None` once the message is sent or refused.
    pub fn action(&self) -> (a: Option<FifoAction>)
        ensures
            a == self.wants(),
    {
        match self.phase {
            SendPhase::Check => Some(FifoAction::ReadPushFull),
            SendPhase::Word0 => Some(FifoAction::WritePush0(self.words[0])),
            SendPhase::Word1 => Some(FifoAction::WritePush1(self.words[1])),
            SendPhase::Complete => Some(FifoAction::CompletePush),
            SendPhase::Finished(_) => None,
        }
    }

    /// Takes the reply to the last access.
    pub fn step(self, reply: FifoReply) -> (r: RawSend)
        ensures
            r == self.next(reply),
    {
        let phase = match (self.phase, reply) {
            (SendPhase::Check, FifoReply::Bits(full)) => if !Mailbox::is_tx_full(full) {
                SendPhase::Word0
            } else if self.wait {
                SendPhase::Check
            } else {
                SendPhase::Finished(Err(Full))
            },
            (SendPhase::Word0, FifoReply::Done) => SendPhase::Word1,
            (SendPhase::Word1, FifoReply::Done) => SendPhase::Complete,
            (SendPhase::Complete, FifoReply::Done) => SendPhase::Finished(Ok(())),
            _ => self.phase,
        };
        RawSend { phase, ..self }
    }
}

/// Where receiving a raw message stands.
#[derive(Clone, Copy, Debug)]
pub enum RecvPhase {
    Check,
    Word0,
    Word1 { w0: u32 },
    Complete { w0: u32, w1: u32 },
    Finished(Option<[u32; 2]>),
}

/// Receiving one raw message. It waits for one if `wait` is set.
#[derive(Clone, Copy, Debug)]
pub struct RawRecv {
    pub wait: bool,
    pub phase: RecvPhase,
}

impl RawRecv {
    pub open spec fn starting(wait: bool) -> RawRecv {
        RawRecv { wait, phase: RecvPhase::Check }
    }

    pub open spec fn at(self, phase: RecvPhase) -> RawRecv {
        RawRecv { phase, ..self }
    }

    pub open spec fn wants(self) -> Option<FifoAction> {
        match self.phase {
            RecvPhase::Check => Some(FifoAction::ReadPullEmpty),
            RecvPhase::Word0 => Some(FifoAction::ReadPull0),
            RecvPhase::Word1 { .. } => Some(FifoAction::ReadPull1),
            RecvPhase::Complete { .. } => Some(FifoAction::CompletePull),
            RecvPhase::Finished(_) => None,
        }
    }

    pub open spec fn next(self, reply: FifoReply) -> RawRecv {
        match (self.phase, reply) {
            (RecvPhase::Check, FifoReply::Bits(empty)) => if empty == 0 {
                self.at(RecvPhase::Word0)
            } else if self.wait {
                self
            } else {
                self.at(RecvPhase::Finished(None))
            },
            (RecvPhase::Word0, FifoReply::Bits(w0)) => self.at(RecvPhase::Word1 { w0 }),
            (RecvPhase::Word1 { w0 }, FifoReply::Bits(w1)) => self.at(
                RecvPhase::Complete { w0, w1 },
            ),
            (RecvPhase::Complete { w0, w1 }, FifoReply::Done) => self.at(
                RecvPhase::Finished(Some([w0, w1])),
            ),
            _ => self,
        }
    }

    /// The next access, or `None` once there is a result.
    pub fn action(&self) -> (a: Option<FifoAction>)
        ensures
            a == self.wants(),
    {
        match self.phase {
            RecvPhase::Check => Some(FifoAction::ReadPullEmpty),
            RecvPhase::Word0 => Some(FifoAction::ReadPull0),
            RecvPhase::Word1 { .. } => Some(FifoAction::ReadPull1),
            RecvPhase::Complete { .. } => Some(FifoAction::CompletePull),
            RecvPhase::Finished(_) => None,
        }
    }

    /// Takes the reply to the last access.
    pub fn step(self, reply: FifoReply) -> (r: RawRecv)
        ensures
            r == self.next(reply),
    {
        let phase = match (self.phase, reply) {
            (RecvPhase::Check, FifoReply::Bits(empty)) => if Mailbox::is_rx_ready(empty) {
                RecvPhase::Word0
            } else if self.wait {
                RecvPhase::Check
            } else {
                RecvPhase::Finished(None)
            },
            (RecvPhase::Word0, FifoReply::Bits(w0)) => RecvPhase::Word1 { w0 },
            (RecvPhase::Word1 { w0 }, FifoReply::Bits(w1)) => RecvPhase::Complete { w0, w1 },
            (RecvPhase::Complete { w0, w1 }, FifoReply::Done) => RecvPhase::Finished(
                Some([w0, w1]),
            ),
            _ => self.phase,
        };
        RawRecv { phase, ..self }
    }
}

/// The raw exchange of this core.
#[derive(Clone, Copy, Debug)]
pub struct Mailbox;

impl Mailbox {
    /// A word 0 that goes to `dest` and carries the low 28 bits of `payload28`.
    pub fn pack_word0(dest: Core, payload28: u32) -> (w: u32)
        ensures
            w == dest.spec_raw_pid() * 0x1000_0000 + payload28 as int % 0x1000_0000,
            icc::cpu_of(w) == dest.spec_raw_pid(),
    {
        let pid: u32 = dest.raw_pid() as u32;
        proof {
            assert((pid << 28) | (payload28 & 0x0fff_ffff) == pid * 0x1000_0000 + payload28
                % 0x1000_0000) by (bit_vector)
                requires
                    pid < 16,
            ;
        }
        (pid << 28) | (payload28 & 0x0fff_ffff)
    }

    /// The raw id of the core that sent a message, given its word 0.
    pub fn sender_raw_pid(word0: u32) -> (pid: u8)
        ensures
            pid == icc::cpu_of(word0),
    {
        proof {
            icc::lemma_fields(word0);
        }
        ((word0 >> 28) & 0xf) as u8
    }

    /// Whether the transmit FIFO is full, given its status.
    pub fn is_tx_full(push_full: u32) -> (r: bool)
        ensures
            r == (push_full != 0),
    {
        push_full != 0
    }

    /// Whether a message is waiting, given the status of the receive FIFO.
    pub fn is_rx_ready(pull_empty: u32) -> (r: bool)
        ensures
            r == (pull_empty == 0),
    {
        pull_empty == 0
    }

    /// Starts to send a message, which fails if the FIFO is full.
    pub fn try_send(words: [u32; 2]) -> (s: RawSend)
        ensures
            s == RawSend::starting(words, false),
    {
        RawSend { words, wait: false, phase: SendPhase::Check }
    }

    /// Starts to receive a message, which gives `None` if there is none.
    pub fn try_recv() -> (r: RawRecv)
        ensures
            r == RawRecv::starting(false),
    {
        RawRecv { wait: false, phase: RecvPhase::Check }
    }

    /// Starts to send a message, and waits for room.
    pub fn send_blocking(words: [u32; 2]) -> (s: RawSend)
        ensures
            s == RawSend::starting(words, true),
    {
        RawSend { words, wait: true, phase: SendPhase::Check }
    }

    /// Starts to receive a message, and waits for one.
    pub fn recv_blocking() -> (r: RawRecv)
        ensures
            r == RawRecv::starting(true),
    {
        RawRecv { wait: true, phase: RecvPhase::Check }
    }
}

/// A message is sent off after both its words were written, in order; a FIFO that is full is not
/// touched.
pub proof fn law_raw_send(words: [u32; 2], wait: bool, full: u32)
    ensures
        ({
            let s0 = RawSend::starting(words, wait);
            let s1 = s0.next(FifoReply::Bits(0));
            let s2 = s1.next(FifoReply::Done);
            let s3 = s2.next(FifoReply::Done);
            let s4 = s3.next(FifoReply::Done);
            &&& s0.wants() == Some(FifoAction::ReadPushFull)
            &&& s1.wants() == Some(FifoAction::WritePush0(words[0]))
            &&& s2.wants() == Some(FifoAction::WritePush1(words[1]))
            &&& s3.wants() == Some(FifoAction::CompletePush)
            &&& s4.phase == SendPhase::Finished(Ok::<(), Full>(()))
            &&& full != 0 && !wait ==> s0.next(FifoReply::Bits(full)).phase == SendPhase::Finished(
                Err::<(), Full>(Full),
            )
            &&& full != 0 && wait ==> s0.next(FifoReply::Bits(full)) == s0
        }),
{
}

/// What is received is what the FIFO showed, and it is taken out of the FIFO after both words were
/// read.
pub proof fn law_raw_recv(w0: u32, w1: u32, wait: bool, empty: u32)
    ensures
        ({
            let r0 = RawRecv::starting(wait);
            let r1 = r0.next(FifoReply::Bits(0));
            let r2 = r1.next(FifoReply::Bits(w0));
            let r3 = r2.next(FifoReply::Bits(w1));
            let r4 = r3.next(FifoReply::Done);
            &&& r0.wants() == Some(FifoAction::ReadPullEmpty)
            &&& r1.wants() == Some(FifoAction::ReadPull0)
            &&& r2.wants() == Some(FifoAction::ReadPull1)
            &&& r3.wants() == Some(FifoAction::CompletePull)
            &&& r4.phase == RecvPhase::Finished(Some([w0, w1]))
            &&& empty != 0 && !wait ==> r0.next(FifoReply::Bits(empty)).phase
                == RecvPhase::Finished(None)
            &&& empty != 0 && wait ==> r0.next(FifoReply::Bits(empty)) == r0
        }),
{
}

/// A message of the typed channel.
#[derive(Clone, Copy, Debug, PartialEq, Eq, Structural)]
pub struct Message {
    /// The destination of a message that is sent, the sender of one that was received.
    pub peer: Core,
    pub msgid: u8,
    pub pdata: u16,
    pub data: u32,
}

/// The raw form of a message.
pub open spec fn encoded(m: Message) -> [u32; 2] {
    [
        icc::word0(m.peer.spec_raw_pid(), PROTO_USER as int, m.msgid as int, m.pdata as int) as u32,
        m.data,
    ]
}

/// Whether a raw message belongs to the typed channel: its protocol is 14, and it names an
/// application core.
pub open spec fn is_user(words: [u32; 2]) -> bool {
    icc::proto_of(words[0]) == PROTO_USER && 2 <= icc::cpu_of(words[0]) <= 7
}

/// Whether `m` is what a raw message of the typed channel means.
pub open spec fn means(words: [u32; 2], m: Message) -> bool {
    &&& icc::cpu_of(words[0]) == m.peer.spec_raw_pid()
    &&& icc::msgid_of(words[0]) == m.msgid
    &&& icc::pdata_of(words[0]) == m.pdata
    &&& words[1] == m.data
}

/// What a raw message means, if it belongs to the typed channel.
pub open spec fn decoded(words: [u32; 2]) -> Option<Message> {
    if is_user(words) {
        Some(
            Message {
                peer: core_at(icc::cpu_of(words[0]) - 2),
                msgid: icc::msgid_of(words[0]) as u8,
                pdata: icc::pdata_of(words[0]) as u16,
                data: words[1],
            },
        )
    } else {
        None
    }
}

/// The core at a position.
pub open spec fn core_at(index: int) -> Core {
    if index == 0 {
        Core::Core0
    } else if index == 1 {
        Core::Core1
    } else if index == 2 {
        Core::Core2
    } else if index == 3 {
        Core::Core3
    } else if index == 4 {
        Core::Core4
    } else {
        Core::Core5
    }
}

/// A raw message as it arrives when `sender` sent it: the sender takes the destination's place.
pub open spec fn delivered(words: [u32; 2], sender: Core) -> [u32; 2] {
    [
        (sender.spec_raw_pid() * 0x1000_0000 + words[0] as int % 0x1000_0000) as u32,
        words[1],
    ]
}

impl Message {
    /// The raw form of this message.
    pub fn to_words(self) -> (w: [u32; 2])
        ensures
            w == encoded(self),
    {
        let pid: u32 = self.peer.raw_pid() as u32;
        let msgid: u32 = self.msgid as u32;
        let pdata: u32 = self.pdata as u32;
        proof {
            assert((pid << 28) | (14u32 << 24) | (msgid << 16) | pdata == pid * 0x1000_0000 + 14
                * 0x100_0000 + msgid * 0x1_0000 + pdata) by (bit_vector)
                requires
                    pid < 16,
                    msgid < 256,
                    pdata < 0x1_0000,
            ;
        }
        [(pid << 28) | (PROTO_USER << 24) | (msgid << 16) | pdata, self.data]
    }

    /// Reads a raw message, or gives `None` if it is not one of the typed channel.
    pub fn from_words(words: [u32; 2]) -> (m: Option<Message>)
        ensures
            m == decoded(words),
            m matches Some(m) ==> means(words, m),
    {
        let w0: u32 = words[0];
        proof {
            icc::lemma_fields(w0);
        }
        if (w0 >> 24) & 0xf != PROTO_USER {
            return None;
        }
        let pid: u8 = ((w0 >> 28) & 0xf) as u8;
        if pid < 2 {
            return None;
        }
        match Core::from_index(pid - 2) {
            Some(peer) => Some(
                Message {
                    peer,
                    msgid: ((w0 >> 16) & 0xff) as u8,
                    pdata: (w0 & 0xffff) as u16,
                    data: words[1],
                },
            ),
            None => None,
        }
    }
}

/// What a core sends to another arrives with everything but the peer unchanged; the peer is then
/// the sender.
pub proof fn law_message_round_trip(m: Message, sender: Core)
    ensures
        icc::cpu_of(encoded(m)[0]) == m.peer.spec_raw_pid(),
        decoded(delivered(encoded(m), sender)) == Some(Message { peer: sender, ..m }),
{
    let sent = encoded(m);
    let got = delivered(sent, sender);
    assert(sent[0] as int % 0x1000_0000 == 14 * 0x100_0000 + m.msgid * 0x1_0000 + m.pdata);
    assert(got[0] == sender.spec_raw_pid() * 0x1000_0000 + 14 * 0x100_0000 + m.msgid * 0x1_0000
        + m.pdata);
}

/// How many messages a ring holds.
pub const RX_RING_DEPTH: usize = 8;

/// The messages that a core received and has not taken, oldest first.
pub struct RxRing {
    buf: [Message; 8],
    head: u8,
    len: u8,
    masked_by_full: bool,
}

/// What a ring holds, oldest first, and whether the receive line is masked because it was full.
pub struct RingView {
    pub items: Seq<Message>,
    pub masked: bool,
}

impl View for RxRing {
    type V = RingView;

    closed spec fn view(&self) -> RingView {
        RingView {
            items: Seq::new(
                self.len as nat,
                |i: int| self.buf@[(self.head + i) % 8],
            ),
            masked: self.masked_by_full,
        }
    }
}

/// A ring after a look for its oldest message: the line of a ring that had none to spare is
/// unmasked when a message is taken.
pub open spec fn popped(ring: RingView) -> RingView {
    if ring.items.len() == 0 {
        ring
    } else {
        RingView { items: ring.items.drop_first(), masked: false }
    }
}

/// The oldest message of a ring.
pub open spec fn oldest(ring: RingView) -> Option<Message> {
    if ring.items.len() == 0 {
        None
    } else {
        Some(ring.items[0])
    }
}

impl RxRing {
    /// Whether the ring's indices are in range.
    pub closed spec fn wf(self) -> bool {
        self.head < 8 && self.len <= 8
    }

    /// An empty ring.
    pub fn new() -> (r: RxRing)
        ensures
            r.wf(),
            r@ == (RingView { items: Seq::empty(), masked: false }),
    {
        let empty = Message { peer: Core::Core0, msgid: 0, pdata: 0, data: 0 };
        let r = RxRing { buf: [empty; 8], head: 0, len: 0, masked_by_full: false };
        assert(r@.items =~= Seq::<Message>::empty());
        r
    }

    /// Whether there is no room.
    pub fn is_full(&self) -> (r: bool)
        requires
            self.wf(),
        ensures
            r == (self@.items.len() == RX_RING_DEPTH),
    {
        self.len as usize == RX_RING_DEPTH
    }

    /// Adds a message at the end. There has to be room.
    pub fn push(&mut self, msg: Message)
        requires
            old(self).wf(),
            old(self)@.items.len() < RX_RING_DEPTH,
        ensures
            final(self).wf(),
            final(self)@ == (RingView { items: old(self)@.items.push(msg), ..old(self)@ }),
    {
        let tail: usize = (self.head as usize + self.len as usize) % 8;
        self.buf[tail] = msg;
        self.len = self.len + 1;
        assert(self@.items =~= old(self)@.items.push(msg));
    }

    /// Takes the oldest message, if there is one.
    pub fn pop(&mut self) -> (m: Option<Message>)
        requires
            old(self).wf(),
        ensures
            final(self).wf(),
            if old(self)@.items.len() == 0 {
                m is None && final(self)@ == old(self)@
            } else {
                m == Some(old(self)@.items[0]) && final(self)@ == (RingView {
                    items: old(self)@.items.drop_first(),
                    ..old(self)@
                })
            },
    {
        if self.len == 0 {
            return None;
        }
        let msg = self.buf[self.head as usize];
        self.head = (self.head + 1) % 8;
        self.len = self.len - 1;
        assert(self@.items =~= old(self)@.items.drop_first());
        Some(msg)
    }

    /// Takes the oldest message, if there is one, and tells whether the receive line is to be
    /// unmasked: it is, if it was masked because the ring was full.
    pub fn pop_local(&mut self) -> (r: (Option<Message>, bool))
        requires
            old(self).wf(),
        ensures
            final(self).wf(),
            final(self)@ == popped(old(self)@),
            r.0 == oldest(old(self)@),
            r.1 == (r.0 is Some && old(self)@.masked),
    {
        let msg = self.pop();
        if msg.is_some() && self.masked_by_full {
            self.masked_by_full = false;
            assert(self@.items =~= old(self)@.items.drop_first());
            (msg, true)
        } else {
            (msg, false)
        }
    }

    fn mark_masked(&mut self)
        requires
            old(self).wf(),
        ensures
            final(self).wf(),
            final(self)@ == (RingView { masked: true, ..old(self)@ }),
    {
        self.masked_by_full = true;
        assert(self@.items =~= old(self)@.items);
    }
}

/// The task to wake, if one waits.
pub struct WakerCell<W> {
    waker: Option<W>,
}

impl<W> WakerCell<W> {
    /// The task.
    pub closed spec fn task(self) -> Option<W> {
        self.waker
    }

    /// No task.
    pub fn new() -> (c: WakerCell<W>)
        ensures
            c.task() is None,
    {
        WakerCell { waker: None }
    }

    /// The task that waits, if one does.
    pub fn registered(&self) -> (w: &Option<W>)
        ensures
            *w == self.task(),
    {
        &self.waker
    }

    /// Registers a task, unless the one that is registered would wake the same one.
    pub fn register(&mut self, will_wake: bool, waker: W)
        ensures
            final(self).task() == if old(self).task() is Some && will_wake {
                old(self).task()
            } else {
                Some(waker)
            },
    {
        if !(self.waker.is_some() && will_wake) {
            self.waker = Some(waker);
        }
    }

    /// Takes the task out, to be woken.
    pub fn wake(&mut self) -> (w: Option<W>)
        ensures
            w == old(self).task(),
            final(self).task() is None,
    {
        self.waker.take()
    }
}

/// An interrupt line of the mailbox.
#[derive(Clone, Copy, Debug, PartialEq, Eq, Structural)]
pub enum Line {
    FifoFrom,
    FifoTo,
}

/// An operation on an interrupt line.
#[derive(Clone, Copy, Debug, PartialEq, Eq, Structural)]
pub enum LineAction {
    /// Let the line through to the core's interrupt controller.
    Enable(Line),
    Unmask(Line),
    Mask(Line),
}

/// What one core's mailbox holds.
pub struct CoreMailbox<W> {
    pub ring: RxRing,
    pub rx_waker: WakerCell<W>,
    pub tx_waker: WakerCell<W>,
    pub inbox_taken: bool,
    pub outbox_taken: bool,
}

impl<W> CoreMailbox<W> {
    /// A mailbox that nobody has taken.
    pub fn new() -> (b: CoreMailbox<W>)
        ensures
            b.ring.wf(),
            b.ring@ == (RingView { items: Seq::empty(), masked: false }),
            b.rx_waker.task() is None,
            b.tx_waker.task() is None,
            !b.inbox_taken,
            !b.outbox_taken,
    {
        CoreMailbox {
            ring: RxRing::new(),
            rx_waker: WakerCell::new(),
            tx_waker: WakerCell::new(),
            inbox_taken: false,
            outbox_taken: false,
        }
    }
}

/// The receiving end of a core's typed channel.
pub struct Inbox {
    idx: usize,
}

impl Inbox {
    /// The position of the core.
    pub closed spec fn index(self) -> int {
        self.idx as int
    }

    /// Takes the receiving end of core `core`, unless it is taken. The line has to be let through
    /// and unmasked.
    pub fn take<W>(core: Core, mailbox: &mut CoreMailbox<W>) -> (r: Option<(Inbox, [LineAction; 2])>)
        ensures
            final(mailbox).inbox_taken,
            *final(mailbox) == (CoreMailbox { inbox_taken: true, ..*old(mailbox) }),
            match r {
                Some((b, lines)) => {
                    &&& !old(mailbox).inbox_taken
                    &&& b.index() == core.spec_index()
                    &&& lines == [
                        LineAction::Enable(Line::FifoFrom),
                        LineAction::Unmask(Line::FifoFrom),
                    ]
                },
                None => old(mailbox).inbox_taken,
            },
    {
        if mailbox.inbox_taken {
            return None;
        }
        mailbox.inbox_taken = true;
        Some(
            (
                Inbox { idx: core.index() as usize },
                [LineAction::Enable(Line::FifoFrom), LineAction::Unmask(Line::FifoFrom)],
            ),
        )
    }

    /// Takes the oldest message out of the ring, if there is one, and tells whether the receive
    /// line is to be unmasked.
    pub fn try_recv(&mut self, ring: &mut RxRing) -> (r: (Option<Message>, bool))
        requires
            old(ring).wf(),
        ensures
            *final(self) == *old(self),
            final(ring).wf(),
            final(ring)@ == popped(old(ring)@),
            r.0 == oldest(old(ring)@),
            r.1 == (r.0 is Some && old(ring)@.masked),
    {
        ring.pop_local()
    }

    /// Starts to poll for the next message.
    pub fn recv(&mut self) -> (p: RecvPoll)
        ensures
            p == RecvPoll::First,
            *final(self) == *old(self),
    {
        RecvPoll::First
    }
}

/// Where one poll for a message stands. Other code of the core, the receive interrupt among it,
/// may run between its steps.
#[derive(Clone, Copy, Debug, PartialEq, Eq, Structural)]
pub enum RecvPoll {
    /// Take a message out of the ring: [`RecvPoll::popped`].
    First,
    /// Register the task: [`RecvPoll::registered`].
    Register,
    /// Look again, for a message that came before the task was registered:
    /// [`RecvPoll::popped`].
    Again,
    Ready(Message),
    /// The task will be woken.
    Pending,
}

impl RecvPoll {
    /// The poll after a look into the ring.
    pub open spec fn after_pop(self, msg: Option<Message>) -> RecvPoll {
        match (self, msg) {
            (RecvPoll::First, Some(m)) | (RecvPoll::Again, Some(m)) => RecvPoll::Ready(m),
            (RecvPoll::First, None) => RecvPoll::Register,
            (RecvPoll::Again, None) => RecvPoll::Pending,
            _ => self,
        }
    }

    /// The poll after the task was registered.
    pub open spec fn after_register(self) -> RecvPoll {
        if self == RecvPoll::Register {
            RecvPoll::Again
        } else {
            self
        }
    }

    /// Goes on after a look into the ring.
    pub fn popped(self, msg: Option<Message>) -> (p: RecvPoll)
        ensures
            p == self.after_pop(msg),
    {
        match (self, msg) {
            (RecvPoll::First, Some(m)) | (RecvPoll::Again, Some(m)) => RecvPoll::Ready(m),
            (RecvPoll::First, None) => RecvPoll::Register,
            (RecvPoll::Again, None) => RecvPoll::Pending,
            _ => self,
        }
    }

    /// Goes on after the task was registered.
    pub fn registered(self) -> (p: RecvPoll)
        ensures
            p == self.after_register(),
    {
        match self {
            RecvPoll::Register => RecvPoll::Again,
            _ => self,
        }
    }
}

/// The sending end of a core's typed channel.
pub struct Outbox {
    idx: usize,
}

impl Outbox {
    /// The position of the core.
    pub closed spec fn index(self) -> int {
        self.idx as int
    }

    /// Takes the sending end of core `core`, unless it is taken. The line has to be let through,
    /// and stays masked.
    pub fn take<W>(core: Core, mailbox: &mut CoreMailbox<W>) -> (r: Option<(Outbox, LineAction)>)
        ensures
            *final(mailbox) == (CoreMailbox { outbox_taken: true, ..*old(mailbox) }),
            match r {
                Some((b, line)) => {
                    &&& !old(mailbox).outbox_taken
                    &&& b.index() == core.spec_index()
                    &&& line == LineAction::Enable(Line::FifoTo)
                },
                None => old(mailbox).outbox_taken,
            },
    {
        if mailbox.outbox_taken {
            return None;
        }
        mailbox.outbox_taken = true;
        Some((Outbox { idx: core.index() as usize }, LineAction::Enable(Line::FifoTo)))
    }

    /// Starts to send `msg` to its peer, which fails if the FIFO is full.
    pub fn try_send(&mut self, msg: Message) -> (s: RawSend)
        ensures
            s == RawSend::starting(encoded(msg), false),
            *final(self) == *old(self),
    {
        Mailbox::try_send(msg.to_words())
    }

    /// Starts to poll for the sending of `msg` to its peer.
    pub fn send(&mut self, msg: Message) -> (p: SendPoll)
        ensures
            p == (SendPoll { words: encoded(msg), phase: SendPollPhase::First }),
            *final(self) == *old(self),
    {
        SendPoll { words: msg.to_words(), phase: SendPollPhase::First }
    }
}

/// Where one poll for the sending of a message stands.
#[derive(Clone, Copy, Debug, PartialEq, Eq, Structural)]
pub enum SendPollPhase {
    /// Try to send: [`SendPoll::tried`].
    First,
    /// Register the task: [`SendPoll::done`].
    Register,
    /// Unmask the transmit line: [`SendPoll::done`].
    Arm,
    /// Try again, as the FIFO may have drained, and the line fired, before the task was
    /// registered: [`SendPoll::tried`].
    Again,
    /// Mask the transmit line: [`SendPoll::done`].
    Disarm,
    Ready,
    /// The task will be woken.
    Pending,
}

/// One poll for the sending of a message.
#[derive(Clone, Copy, Debug)]
pub struct SendPoll {
    pub words: [u32; 2],
    pub phase: SendPollPhase,
}

impl SendPollPhase {
    /// The phase after a try to send.
    pub open spec fn after_try(self, outcome: Result<(), Full>) -> SendPollPhase {
        match (self, outcome) {
            (SendPollPhase::First, Ok(_)) => SendPollPhase::Ready,
            (SendPollPhase::First, Err(_)) => SendPollPhase::Register,
            (SendPollPhase::Again, Ok(_)) => SendPollPhase::Disarm,
            (SendPollPhase::Again, Err(_)) => SendPollPhase::Pending,
            _ => self,
        }
    }

    /// The phase after the task was registered, or the line armed or disarmed.
    pub open spec fn after_done(self) -> SendPollPhase {
        match self {
            SendPollPhase::Register => SendPollPhase::Arm,
            SendPollPhase::Arm => SendPollPhase::Again,
            SendPollPhase::Disarm => SendPollPhase::Ready,
            _ => self,
        }
    }
}

impl SendPoll {
    /// Goes on after a try to send.
    pub fn tried(self, outcome: Result<(), Full>) -> (p: SendPoll)
        ensures
            p == (SendPoll { phase: self.phase.after_try(outcome), ..self }),
    {
        let phase = match (self.phase, outcome) {
            (SendPollPhase::First, Ok(_)) => SendPollPhase::Ready,
            (SendPollPhase::First, Err(_)) => SendPollPhase::Register,
            (SendPollPhase::Again, Ok(_)) => SendPollPhase::Disarm,
            (SendPollPhase::Again, Err(_)) => SendPollPhase::Pending,
            _ => self.phase,
        };
        SendPoll { phase, ..self }
    }

    /// Goes on after the task was registered, or the line armed or disarmed.
    pub fn done(self) -> (p: SendPoll)
        ensures
            p == (SendPoll { phase: self.phase.after_done(), ..self }),
    {
        let phase = match self.phase {
            SendPollPhase::Register => SendPollPhase::Arm,
            SendPollPhase::Arm => SendPollPhase::Again,
            SendPollPhase::Disarm => SendPollPhase::Ready,
            _ => self.phase,
        };
        SendPoll { phase, ..self }
    }

    /// What to do with the transmit line now, if anything.
    pub fn line(&self) -> (a: Option<LineAction>)
        ensures
            a == match self.phase {
                SendPollPhase::Arm => Some(LineAction::Unmask(Line::FifoTo)),
                SendPollPhase::Disarm => Some(LineAction::Mask(Line::FifoTo)),
                _ => None,
            },
    {
        match self.phase {
            SendPollPhase::Arm => Some(LineAction::Unmask(Line::FifoTo)),
            SendPollPhase::Disarm => Some(LineAction::Mask(Line::FifoTo)),
            _ => None,
        }
    }
}

/// What the receive interrupt does next.
#[derive(Clone, Copy, Debug, PartialEq, Eq, Structural)]
pub enum DrainPhase {
    /// Try to receive a raw message: [`RxDrain::pulled`].
    Pull,
    /// Mask the receive line: [`RxDrain::masked`].
    MaskLine,
    Finished,
}

/// The receive interrupt.
#[derive(Clone, Copy, Debug, PartialEq, Eq, Structural)]
pub struct RxDrain {
    /// A message was put into the ring, so the receiver is to be woken.
    pub pushed: bool,
    pub phase: DrainPhase,
}

/// The interrupt with `ring` as it stands: a ring without room is marked, and the line masked.
pub open spec fn draining(pushed: bool, ring: RingView) -> (RxDrain, RingView) {
    if ring.items.len() == RX_RING_DEPTH {
        (RxDrain { pushed, phase: DrainPhase::MaskLine }, RingView { masked: true, ..ring })
    } else {
        (RxDrain { pushed, phase: DrainPhase::Pull }, ring)
    }
}

/// The interrupt and the ring after a raw message was received: one of the typed channel goes into
/// the ring, any other is dropped.
pub open spec fn drained(d: RxDrain, ring: RingView, got: Option<[u32; 2]>) -> (RxDrain, RingView) {
    match (d.phase, got) {
        (DrainPhase::Pull, None) => (RxDrain { phase: DrainPhase::Finished, ..d }, ring),
        (DrainPhase::Pull, Some(words)) => match decoded(words) {
            Some(m) => draining(true, RingView { items: ring.items.push(m), ..ring }),
            None => draining(d.pushed, ring),
        },
        _ => (d, ring),
    }
}

/// The receive interrupt of a core: drains the FIFO into the ring.
pub fn on_rx_interrupt(ring: &mut RxRing) -> (d: RxDrain)
    requires
        old(ring).wf(),
    ensures
        final(ring).wf(),
        (d, final(ring)@) == draining(false, old(ring)@),
{
    RxDrain::go_on(false, ring)
}

impl RxDrain {
    fn go_on(pushed: bool, ring: &mut RxRing) -> (d: RxDrain)
        requires
            old(ring).wf(),
        ensures
            final(ring).wf(),
            (d, final(ring)@) == draining(pushed, old(ring)@),
    {
        if ring.is_full() {
            ring.mark_masked();
            RxDrain { pushed, phase: DrainPhase::MaskLine }
        } else {
            RxDrain { pushed, phase: DrainPhase::Pull }
        }
    }

    /// Goes on after an attempt to receive a raw message.
    pub fn pulled(self, ring: &mut RxRing, got: Option<[u32; 2]>) -> (d: RxDrain)
        requires
            old(ring).wf(),
            self.phase == DrainPhase::Pull ==> old(ring)@.items.len() < RX_RING_DEPTH,
        ensures
            final(ring).wf(),
            (d, final(ring)@) == drained(self, old(ring)@, got),
    {
        match (self.phase, got) {
            (DrainPhase::Pull, None) => RxDrain { phase: DrainPhase::Finished, ..self },
            (DrainPhase::Pull, Some(words)) => match Message::from_words(words) {
                Some(m) => {
                    ring.push(m);
                    RxDrain::go_on(true, ring)
                },
                None => RxDrain::go_on(self.pushed, ring),
            },
            _ => self,
        }
    }

    /// Goes on after the receive line was masked.
    pub fn masked(self) -> (d: RxDrain)
        ensures
            d == if self.phase == DrainPhase::MaskLine {
                RxDrain { phase: DrainPhase::Finished, ..self }
            } else {
                self
            },
    {
        match self.phase {
            DrainPhase::MaskLine => RxDrain { phase: DrainPhase::Finished, ..self },
            _ => self,
        }
    }

    /// Ends the interrupt: takes the receiver's task out to be woken, if a message came for it.
    pub fn finish<W>(self, waker: &mut WakerCell<W>) -> (w: Option<W>)
        ensures
            if self.pushed {
                w == old(waker).task() && final(waker).task() is None
            } else {
                w is None && *final(waker) == *old(waker)
            },
    {
        if self.pushed {
            waker.wake()
        } else {
            None
        }
    }
}

/// The transmit interrupt of a core: the line is masked, and the sender's task taken out to be
/// woken.
pub fn on_tx_interrupt<W>(waker: &mut WakerCell<W>) -> (r: (LineAction, Option<W>))
    ensures
        r.0 == LineAction::Mask(Line::FifoTo),
        r.1 == old(waker).task(),
        final(waker).task() is None,
{
    (LineAction::Mask(Line::FifoTo), waker.wake())
}

/// The messages of the typed channel among `raw`, in order.
pub open spec fn user_messages(raw: Seq<[u32; 2]>) -> Seq<Message>
    decreases raw.len(),
{
    if raw.len() == 0 {
        Seq::empty()
    } else {
        let rest = user_messages(raw.drop_last());
        match decoded(raw.last()) {
            Some(m) => rest.push(m),
            None => rest,
        }
    }
}

/// The interrupt and the ring after the raw messages `raw` were received one after the other.
pub open spec fn drain_run(ring: RingView, raw: Seq<[u32; 2]>) -> (RxDrain, RingView)
    decreases raw.len(),
{
    if raw.len() == 0 {
        draining(false, ring)
    } else {
        let (d, r) = drain_run(ring, raw.drop_last());
        drained(d, r, Some(raw.last()))
    }
}

/// As long as there is room, the receive interrupt puts every message of the typed channel into
/// the ring, in the order in which they came, behind those that were there; nothing is lost, and
/// nothing else gets in. The receiver is woken if there was one. The line is masked exactly when
/// the ring is full in the end; then the interrupt takes no more out of the FIFO.
pub proof fn law_drain_keeps_order(ring: RingView, raw: Seq<[u32; 2]>)
    requires
        ring.items.len() + user_messages(raw).len() <= RX_RING_DEPTH,
        raw.len() > 0 ==> ring.items.len() + user_messages(raw.drop_last()).len() < RX_RING_DEPTH,
    ensures
        ({
            let (d, r) = drain_run(ring, raw);
            &&& r.items == ring.items + user_messages(raw)
            &&& d.pushed == (user_messages(raw).len() > 0)
            &&& d.phase == if r.items.len() == RX_RING_DEPTH {
                DrainPhase::MaskLine
            } else {
                DrainPhase::Pull
            }
            &&& r.masked == (ring.masked || r.items.len() == RX_RING_DEPTH)
        }),
    decreases raw.len(),
{
    if raw.len() == 0 {
        assert(ring.items + Seq::<Message>::empty() =~= ring.items);
    } else {
        let before = raw.drop_last();
        lemma_user_messages_grow(before);
        law_drain_keeps_order(ring, before);
        let (d, r) = drain_run(ring, before);
        if let Some(m) = decoded(raw.last()) {
            assert((ring.items + user_messages(before)).push(m) =~= ring.items + user_messages(
                raw,
            ));
        }
    }
}

proof fn lemma_user_messages_grow(raw: Seq<[u32; 2]>)
    ensures
        raw.len() > 0 ==> user_messages(raw.drop_last()).len() <= user_messages(raw).len(),
{
}

/// A full ring stops the interrupt: what it is handed is not taken.
pub proof fn law_full_ring_stops(ring: RingView, got: Option<[u32; 2]>)
    requires
        ring.items.len() == RX_RING_DEPTH,
    ensures
        draining(false, ring).0.phase == DrainPhase::MaskLine,
        drained(draining(false, ring).0, ring, got) == (draining(false, ring).0, ring),
{
}

/// Whether the receive line is masked for want of room only where there is none.
pub open spec fn mask_is_due(ring: RingView) -> bool {
    &&& ring.items.len() <= RX_RING_DEPTH
    &&& ring.masked ==> ring.items.len() == RX_RING_DEPTH
}

/// The receive line is masked for want of room only as long as there is none: the interrupt keeps
/// it so, and so does taking a message. After the interrupt has looked at the ring, a full ring has
/// its line masked; and the next message that is taken unmasks it. So no line stays masked while
/// its ring has room.
pub proof fn law_mask_follows_room(ring: RingView, d: RxDrain, got: Option<[u32; 2]>)
    requires
        mask_is_due(ring),
        d.phase == DrainPhase::Pull ==> ring.items.len() < RX_RING_DEPTH,
    ensures
        mask_is_due(popped(ring)),
        mask_is_due(draining(d.pushed, ring).1),
        draining(d.pushed, ring).1.masked <==> ring.items.len() == RX_RING_DEPTH,
        mask_is_due(drained(d, ring, got).1),
        ring.masked ==> oldest(ring) is Some && !popped(ring).masked,
{
}

/// A receiving task and what it shares with the receive interrupt.
pub struct Receiver {
    pub ring: RingView,
    pub poll: RecvPoll,
    /// The task is registered.
    pub waiting: bool,
    /// The task was woken since its poll began.
    pub woken: bool,
}

/// What happens to a receiving task.
pub enum ReceiverEvent {
    /// The task polls anew.
    Poll,
    /// The poll under way goes on by one step.
    Step,
    /// The receive interrupt puts these messages into the ring.
    Arrive(Seq<Message>),
}

impl Receiver {
    /// A task that has not polled yet.
    pub open spec fn idle() -> Receiver {
        Receiver {
            ring: RingView { items: Seq::empty(), masked: false },
            poll: RecvPoll::Pending,
            waiting: false,
            woken: true,
        }
    }

    /// The task after an event.
    pub open spec fn after(self, e: ReceiverEvent) -> Receiver {
        match e {
            ReceiverEvent::Poll => Receiver { poll: RecvPoll::First, woken: false, ..self },
            ReceiverEvent::Step => match self.poll {
                RecvPoll::First | RecvPoll::Again => Receiver {
                    ring: popped(self.ring),
                    poll: self.poll.after_pop(oldest(self.ring)),
                    ..self
                },
                RecvPoll::Register => Receiver {
                    poll: self.poll.after_register(),
                    waiting: true,
                    ..self
                },
                RecvPoll::Ready(_) | RecvPoll::Pending => self,
            },
            ReceiverEvent::Arrive(msgs) => if msgs.len() == 0 {
                self
            } else {
                Receiver {
                    ring: RingView { items: self.ring.items + msgs, ..self.ring },
                    poll: self.poll,
                    waiting: false,
                    woken: self.woken || self.waiting,
                }
            },
        }
    }

    /// The task after each of `events` in turn.
    pub open spec fn run(self, events: Seq<ReceiverEvent>) -> Receiver
        decreases events.len(),
    {
        if events.len() == 0 {
            self
        } else {
            self.run(events.drop_last()).after(events.last())
        }
    }

    /// A task past its registration is still registered, or was woken; and one that waits, was not
    /// woken, and looked again, has no message.
    pub open spec fn inv(self) -> bool {
        match self.poll {
            RecvPoll::Again => self.waiting || self.woken,
            RecvPoll::Pending => self.woken || (self.waiting && self.ring.items.len() == 0),
            _ => true,
        }
    }
}

proof fn lemma_receiver_inv(r: Receiver, e: ReceiverEvent)
    requires
        r.inv(),
    ensures
        r.after(e).inv(),
{
}

/// No wake-up is lost. However the receive interrupt and the steps of the polls interleave, a task
/// that was told to wait and has not been woken is registered, and there is no message for it.
pub proof fn law_no_lost_message(events: Seq<ReceiverEvent>)
    ensures
        ({
            let r = Receiver::idle().run(events);
            &&& r.inv()
            &&& r.poll == RecvPoll::Pending && !r.woken ==> r.waiting && r.ring.items.len() == 0
        }),
    decreases events.len(),
{
    if events.len() > 0 {
        law_no_lost_message(events.drop_last());
        lemma_receiver_inv(Receiver::idle().run(events.drop_last()), events.last());
    }
}

/// A sending task and what it shares with the transmit interrupt.
pub struct Sender {
    pub phase: SendPollPhase,
    /// The task is registered.
    pub waiting: bool,
    /// The transmit line is not masked.
    pub armed: bool,
    /// The task was woken since its poll began.
    pub woken: bool,
    /// How often the message was sent.
    pub sent: nat,
}

/// What happens to a sending task.
pub enum SenderEvent {
    /// The task polls anew, unless its message is sent.
    Poll,
    /// The poll under way goes on by one step; a try to send finds room, or not.
    Step { room: bool },
    /// The transmit interrupt, which comes only while its line is armed.
    Interrupt,
}

impl Sender {
    /// A task that has not polled yet.
    pub open spec fn idle() -> Sender {
        Sender {
            phase: SendPollPhase::Pending,
            waiting: false,
            armed: false,
            woken: true,
            sent: 0,
        }
    }

    /// The task after an event.
    pub open spec fn after(self, e: SenderEvent) -> Sender {
        match e {
            SenderEvent::Poll => if self.phase == SendPollPhase::Pending {
                Sender { phase: SendPollPhase::First, woken: false, ..self }
            } else {
                self
            },
            SenderEvent::Step { room } => match self.phase {
                SendPollPhase::First | SendPollPhase::Again => if room {
                    Sender { phase: self.phase.after_try(Ok(())), sent: self.sent + 1, ..self }
                } else {
                    Sender { phase: self.phase.after_try(Err(Full)), ..self }
                },
                SendPollPhase::Register => Sender {
                    phase: self.phase.after_done(),
                    waiting: true,
                    ..self
                },
                SendPollPhase::Arm => Sender {
                    phase: self.phase.after_done(),
                    armed: true,
                    ..self
                },
                SendPollPhase::Disarm => Sender {
                    phase: self.phase.after_done(),
                    armed: false,
                    ..self
                },
                SendPollPhase::Ready | SendPollPhase::Pending => self,
            },
            SenderEvent::Interrupt => if self.armed {
                Sender {
                    armed: false,
                    waiting: false,
                    woken: self.woken || self.waiting,
                    ..self
                }
            } else {
                self
            },
        }
    }

    /// The task after each of `events` in turn.
    pub open spec fn run(self, events: Seq<SenderEvent>) -> Sender
        decreases events.len(),
    {
        if events.len() == 0 {
            self
        } else {
            self.run(events.drop_last()).after(events.last())
        }
    }

    /// A task past its registration is still registered, or was woken; from then on its line is
    /// armed unless the interrupt has come; and its message is sent exactly once it is ready.
    pub open spec fn inv(self) -> bool {
        &&& match self.phase {
            SendPollPhase::Arm => self.waiting || self.woken,
            SendPollPhase::Again => (self.waiting && self.armed) || self.woken,
            SendPollPhase::Pending => (self.waiting && self.armed) || self.woken,
            _ => true,
        }
        &&& self.sent == if self.phase == SendPollPhase::Ready || self.phase
            == SendPollPhase::Disarm {
            1nat
        } else {
            0nat
        }
    }
}

proof fn lemma_sender_inv(s: Sender, e: SenderEvent)
    requires
        s.inv(),
    ensures
        s.after(e).inv(),
{
}

/// No wake-up is lost, and no message is sent twice. However the transmit interrupt and the steps
/// of the polls interleave, a task that was told to wait and has not been woken is registered and
/// its line is armed, so the interrupt will come for it; and its message is sent once when it is
/// ready, and not before.
pub proof fn law_no_lost_room(events: Seq<SenderEvent>)
    ensures
        ({
            let s = Sender::idle().run(events);
            &&& s.inv()
            &&& s.phase == SendPollPhase::Pending && !s.woken ==> s.waiting && s.armed
            &&& s.phase == SendPollPhase::Ready ==> s.sent == 1
            &&& s.phase == SendPollPhase::Pending ==> s.sent == 0
        }),
    decreases events.len(),
{
    if events.len() > 0 {
        law_no_lost_room(events.drop_last());
        lemma_sender_inv(Sender::idle().run(events.drop_last()), events.last());
    }
}

/// A message of the typed channel on the wire: the hardware's id of its peer in bits 28 to 31,
/// protocol 14, the message id in bits 16 to 23, the small payload below, and the large one in
/// word 1.
pub proof fn law_message_layout(m: Message)
    ensures
        encoded(m)[0] as int / 268_435_456 == m.peer.spec_index() + 2,
        encoded(m)[0] as int / 16_777_216 % 16 == 14,
        encoded(m)[0] as int / 65_536 % 256 == m.msgid,
        encoded(m)[0] as int % 65_536 == m.pdata,
        encoded(m)[1] == m.data,
{
}

/// What is received is a message of the typed channel exactly if its protocol is 14 and its sender
/// has one of the ids 2 to 7; then it holds what the words hold.
pub proof fn law_received_message(words: [u32; 2])
    ensures
        match decoded(words) {
            Some(m) => {
                &&& words[0] as int / 16_777_216 % 16 == 14
                &&& m.peer.spec_index() + 2 == words[0] as int / 268_435_456
                &&& m.msgid == words[0] as int / 65_536 % 256
                &&& m.pdata == words[0] as int % 65_536
                &&& m.data == words[1]
            },
            None => words[0] as int / 16_777_216 % 16 != 14 || words[0] as int / 268_435_456 < 2
                || words[0] as int / 268_435_456 > 7,
        },
{
}

/// A ring holds eight messages, and gives out the one that has been there longest.
pub proof fn law_ring_is_a_queue(ring: RingView, m: Message, pushed: bool)
    requires
        ring.items.len() <= 8,
    ensures
        draining(pushed, ring).0.phase == if ring.items.len() == 8 {
            DrainPhase::MaskLine
        } else {
            DrainPhase::Pull
        },
        draining(pushed, ring).0.pushed == pushed,
        draining(pushed, ring).1.items == ring.items,
        oldest(ring) is None <==> ring.items.len() == 0,
        ring.items.len() > 0 ==> {
            let fuller = RingView { items: ring.items.push(m), ..ring };
            &&& oldest(fuller) == oldest(ring)
            &&& popped(fuller).items == popped(ring).items.push(m)
        },
        ring.items.len() == 0 ==> oldest(RingView { items: ring.items.push(m), ..ring }) == Some(
            m,
        ),
{
    if ring.items.len() > 0 {
        assert(ring.items.push(m).drop_first() =~= ring.items.drop_first().push(m));
    }
}

/// Sending and receiving a raw message take no notice of a reply to something that they did not ask
/// for, and sending never changes its message.
pub proof fn law_raw_takes_only_answers(s: RawSend, r: RawRecv, reply: FifoReply)
    ensures
        s.next(reply).words == s.words,
        s.next(reply).wait == s.wait,
        r.next(reply).wait == r.wait,
        match s.wants() {
            Some(FifoAction::ReadPushFull) => !(reply is Bits) ==> s.next(reply) == s,
            Some(_) => !(reply is Done) ==> s.next(reply) == s,
            None => s.next(reply) == s,
        },
        match r.wants() {
            Some(FifoAction::CompletePull) => !(reply is Done) ==> r.next(reply) == r,
            Some(_) => !(reply is Bits) ==> r.next(reply) == r,
            None => r.next(reply) == r,
        },
{
}

/// A poll for a message looks once, registers, and looks once more. A message that either look finds
/// is the one it ends with; the first look that finds none goes on to register, the second one ends
/// the poll with a wait. Nothing else moves it.
pub proof fn law_receive_looks_twice(p: RecvPoll, msg: Option<Message>)
    ensures
        p is First || p is Again ==> {
            &&& p.after_register() == p
            &&& match msg {
                Some(m) => p.after_pop(msg) == RecvPoll::Ready(m),
                None => p is First ==> p.after_pop(msg) == RecvPoll::Register,
            }
            &&& msg is None && p is Again ==> p.after_pop(msg) == RecvPoll::Pending
        },
        p is Register ==> p.after_register() == RecvPoll::Again && p.after_pop(msg) == p,
        p is Ready || p is Pending ==> p.after_pop(msg) == p && p.after_register() == p,
{
}

/// A poll for the sending of a message tries once; only if the FIFO was full does it register and
/// arm the line, in this order, and try once more, and it disarms the line if that succeeds.
pub proof fn law_send_tries_twice(p: SendPollPhase, outcome: Result<(), Full>)
    ensures
        SendPollPhase::First.after_try(outcome) == if outcome is Ok {
            SendPollPhase::Ready
        } else {
            SendPollPhase::Register
        },
        SendPollPhase::Register.after_done().after_done() == SendPollPhase::Again,
        SendPollPhase::Register.after_done() == SendPollPhase::Arm,
        outcome is Ok ==> SendPollPhase::Again.after_try(outcome) == SendPollPhase::Disarm,
        outcome is Err ==> SendPollPhase::Again.after_try(outcome) == SendPollPhase::Pending,
        SendPollPhase::Disarm.after_done() == SendPollPhase::Ready,
        p is First || p is Again ==> p.after_done() == p,
        p is Register || p is Arm || p is Disarm ==> p.after_try(outcome) == p,
        p is Ready || p is Pending ==> p.after_done() == p && p.after_try(outcome) == p,
{
}

} // verus!
