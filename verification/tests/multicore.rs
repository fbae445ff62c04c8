use std::cell::Cell;
use std::collections::{HashMap, VecDeque};
use std::rc::Rc;

use cxd56::icc;
use cxd56::multicore::mailbox::{
    on_rx_interrupt, on_tx_interrupt, CoreMailbox, DrainPhase, FifoAction, FifoReply, Line,
    LineAction, RawRecv, RawSend, RecvPhase, RecvPoll, RxRing, SendPhase, SendPollPhase,
    RX_RING_DEPTH,
};
use cxd56::multicore::spawn::{
    boot_frame, Boot, BootAction, BootPhase, BootReply, CoresTaken, CrgReg, Frame, ACNV_P0_DST0,
    VECTOR_ISTACK, VECTOR_RESETV,
};
use cxd56::multicore::sph::{
    release_steps, Acquire, AcquirePhase, LockPhase, SphAction, SphLock, SphReply, RESERVED_CS_ID,
};
use cxd56::multicore::{
    spawn, Core, Cores, Full, HwMutex, Inbox, Mailbox, Message, Outbox, SpawnError, Sph, Stack,
};

/// Memory and the registers that start a worker.
struct Machine {
    mem: HashMap<u32, u32>,
    reset: u32,
    gate: u32,
    ack: bool,
    log: Vec<BootAction>,
}

impl Machine {
    fn new() -> Machine {
        let mut mem = HashMap::new();
        for i in 0..12u32 {
            mem.insert(ACNV_P0_DST0 + 4 * i, 0xa000 + i);
        }
        Machine { mem, reset: 0x0001_0000, gate: 0x0001_0000, ack: true, log: Vec::new() }
    }

    fn perform(&mut self, a: BootAction) -> BootReply {
        self.log.push(a);
        match a {
            BootAction::Store { addr, value } => {
                self.mem.insert(addr, value);
                BootReply::Done
            }
            BootAction::Load { addr } => BootReply::Bits(*self.mem.get(&addr).unwrap_or(&0)),
            BootAction::ReadReg(CrgReg::Reset) => BootReply::Bits(self.reset),
            BootAction::ReadReg(CrgReg::Gate) => BootReply::Bits(self.gate),
            BootAction::WriteReg(CrgReg::Reset, v) => {
                self.reset = v;
                BootReply::Done
            }
            BootAction::WriteReg(CrgReg::Gate, v) => {
                self.gate = v;
                BootReply::Done
            }
            BootAction::ClearAck => {
                self.ack = false;
                BootReply::Done
            }
            BootAction::Barrier => BootReply::Done,
            BootAction::ReadAck => BootReply::Ack(self.ack),
        }
    }

    /// Runs a start. `worker` stands for the worker, once it has its reset released and its clock.
    fn start(&mut self, mut boot: Boot, worker: &mut dyn FnMut(&mut Machine)) -> Result<(), SpawnError> {
        let bit = 1u32 << (16 + boot.cpu);
        let mut ran = false;
        while let Some(a) = boot.action() {
            let reply = self.perform(a);
            boot = boot.step(reply);
            if !ran && matches!(a, BootAction::WriteReg(CrgReg::Gate, _))
                && self.reset & bit != 0
                && self.gate & bit != 0
            {
                ran = true;
                worker(self);
            }
        }
        boot.outcome().unwrap()
    }
}

#[test]
fn spawn_closure_captures() {
    const MAGIC: u32 = 0xC0DE_CAFE;
    let mut flag = CoresTaken { taken: false };
    let cores = Cores::take(&mut flag).unwrap();
    let base = 0x0d08_0000u32;
    let boot = spawn(cores.core1, base, 8192, 4, 4, 0x0d00_1235).expect("spawn core1");
    let mut m = Machine::new();
    m.mem.insert(boot.frame.f_dst, MAGIC);
    let mut seen = 0;
    let result = m.start(boot, &mut |m: &mut Machine| {
        let sp = m.mem[&VECTOR_ISTACK];
        assert_eq!(m.mem[&VECTOR_RESETV], 0x0d00_1235);
        let f = m.mem[&sp];
        assert_eq!(m.mem[&(sp + 4)], base);
        seen = m.mem[&f];
        m.ack = true;
    });
    result.expect("spawn core1");
    assert_eq!(seen, MAGIC, "Core1 never published the captured value");
}

/// One core's mailbox, with its FIFOs.
struct Node {
    core: Core,
    rx: VecDeque<[u32; 2]>,
    mailbox: CoreMailbox<u32>,
    unmasked: bool,
}

impl Node {
    fn new(core: Core) -> Node {
        Node { core, rx: VecDeque::new(), mailbox: CoreMailbox::new(), unmasked: false }
    }

    fn take(&mut self) -> (Inbox, Outbox) {
        let (inbox, lines) = Inbox::take(self.core, &mut self.mailbox).expect("inbox");
        assert_eq!(lines, [LineAction::Enable(Line::FifoFrom), LineAction::Unmask(Line::FifoFrom)]);
        let (outbox, line) = Outbox::take(self.core, &mut self.mailbox).expect("outbox");
        assert_eq!(line, LineAction::Enable(Line::FifoTo));
        self.unmasked = true;
        (inbox, outbox)
    }

    fn pull(&mut self) -> Option<[u32; 2]> {
        raw_recv(Mailbox::try_recv(), &mut self.rx)
    }

    /// The receive interrupt, if its line is active. Gives the task that it wakes.
    fn interrupt(&mut self) -> Option<u32> {
        if !self.unmasked || self.rx.is_empty() {
            return None;
        }
        let mut d = on_rx_interrupt(&mut self.mailbox.ring);
        loop {
            match d.phase {
                DrainPhase::Pull => {
                    let got = self.pull();
                    d = d.pulled(&mut self.mailbox.ring, got);
                }
                DrainPhase::MaskLine => {
                    self.unmasked = false;
                    d = d.masked();
                }
                DrainPhase::Finished => return d.finish(&mut self.mailbox.rx_waker),
            }
        }
    }

    fn try_recv(&mut self, inbox: &mut Inbox) -> Option<Message> {
        let (msg, unmask) = inbox.try_recv(&mut self.mailbox.ring);
        if unmask {
            self.unmasked = true;
        }
        msg
    }
}

fn raw_recv(mut r: RawRecv, fifo: &mut VecDeque<[u32; 2]>) -> Option<[u32; 2]> {
    while let Some(a) = r.action() {
        let reply = match a {
            FifoAction::ReadPullEmpty => FifoReply::Bits(if fifo.is_empty() { 1 } else { 0 }),
            FifoAction::ReadPull0 => FifoReply::Bits(fifo[0][0]),
            FifoAction::ReadPull1 => FifoReply::Bits(fifo[0][1]),
            FifoAction::CompletePull => {
                fifo.pop_front();
                FifoReply::Done
            }
            _ => unreachable!(),
        };
        r = r.step(reply);
    }
    match r.phase {
        RecvPhase::Finished(words) => words,
        _ => unreachable!(),
    }
}

/// Sends from `sender` into a FIFO that holds at most four messages.
fn raw_send(mut s: RawSend, sender: Core, dest: &mut VecDeque<[u32; 2]>) -> Result<(), Full> {
    let mut words = [0u32; 2];
    while let Some(a) = s.action() {
        let reply = match a {
            FifoAction::ReadPushFull => FifoReply::Bits(if dest.len() >= 4 { 1 } else { 0 }),
            FifoAction::WritePush0(w) => {
                words[0] = w;
                FifoReply::Done
            }
            FifoAction::WritePush1(w) => {
                words[1] = w;
                FifoReply::Done
            }
            FifoAction::CompletePush => {
                words[0] = ((sender.raw_pid() as u32) << 28) | (words[0] & 0x0fff_ffff);
                dest.push_back(words);
                FifoReply::Done
            }
            _ => unreachable!(),
        };
        s = s.step(reply);
    }
    match s.phase {
        SendPhase::Finished(r) => r,
        _ => unreachable!(),
    }
}

#[test]
fn mailbox_echo_roundtrip() {
    let mut core0 = Node::new(Core::Core0);
    let mut core2 = Node::new(Core::Core2);
    let (mut inbox2, mut outbox2) = core2.take();
    let (mut inbox, mut outbox) = core0.take();
    for i in 1..=4u16 {
        let request = Message { peer: Core::Core2, msgid: 7, pdata: i, data: u32::from(i) * 1000 };
        raw_send(outbox.try_send(request), Core::Core0, &mut core2.rx).unwrap();

        // Core 0 polls, finds nothing, and waits as task 42.
        let mut poll = inbox.recv();
        let (msg, _) = inbox.try_recv(&mut core0.mailbox.ring);
        poll = poll.popped(msg);
        assert_eq!(poll, RecvPoll::Register);
        core0.mailbox.rx_waker.register(false, 42);
        poll = poll.registered();
        let (msg, _) = inbox.try_recv(&mut core0.mailbox.ring);
        assert_eq!(poll.popped(msg), RecvPoll::Pending);

        // Core 2 echoes.
        core2.interrupt();
        let got = core2.try_recv(&mut inbox2).expect("a request");
        assert_eq!(got.peer, Core::Core0);
        let reply = Message {
            peer: got.peer,
            msgid: got.msgid,
            pdata: got.pdata,
            data: got.data.wrapping_mul(2),
        };
        raw_send(outbox2.try_send(reply), Core::Core2, &mut core0.rx).unwrap();

        // Core 0 is woken, and polls again.
        assert_eq!(core0.interrupt(), Some(42));
        let poll = inbox.recv();
        let (msg, _) = inbox.try_recv(&mut core0.mailbox.ring);
        let reply = match poll.popped(msg) {
            RecvPoll::Ready(m) => m,
            _ => panic!("no reply"),
        };
        assert_eq!(reply.peer.index(), Core::Core2.index());
        assert_eq!(reply.msgid, 7);
        assert_eq!(reply.pdata, i);
        assert_eq!(reply.data, u32::from(i) * 2000);
    }
}

/// A semaphore slot.
struct Slot {
    owner: Option<u8>,
}

impl Slot {
    fn perform(&mut self, me: u8, a: SphAction) -> SphReply {
        match a {
            SphAction::ReadStatus { .. } => match self.owner {
                Some(owner) => SphReply::Status { state: 1, owner },
                None => SphReply::Status { state: 0, owner: 0 },
            },
            SphAction::Command { value, .. } => {
                if value == 1 {
                    if self.owner.is_none() {
                        self.owner = Some(me);
                    }
                } else if self.owner == Some(me) {
                    self.owner = None;
                }
                SphReply::Done
            }
            SphAction::CompilerFence | SphAction::Barrier => SphReply::Done,
        }
    }
}

/// A core that increments shared data without an atomic operation. Each core reaches the data
/// through a mutex of its own over the same memory, as the semaphore alone keeps them apart.
struct Hammer {
    me: u8,
    left: u32,
    mutex: HwMutex<0, Rc<Cell<u32>>>,
    acquire: Option<Acquire>,
    releasing: Vec<SphAction>,
}

impl Hammer {
    fn new(core: Core, left: u32, shared: &Rc<Cell<u32>>) -> Hammer {
        Hammer {
            me: core.raw_pid(),
            left,
            mutex: HwMutex::new(shared.clone()),
            acquire: None,
            releasing: Vec::new(),
        }
    }

    /// Does one step. Gives whether there is more to do. If the step is to change the data, `other`
    /// runs between the read and the write.
    fn go(&mut self, slot: &mut Slot, other: Option<&mut Hammer>) -> bool {
        if self.left == 0 {
            return false;
        }
        if !self.releasing.is_empty() {
            assert_eq!(slot.owner, Some(self.me));
            slot.perform(self.me, self.releasing.remove(0));
            if self.releasing.is_empty() {
                self.left -= 1;
            }
            return true;
        }
        let Some(acquire) = self.acquire.take() else {
            self.acquire = Some(self.mutex.lock(self.me));
            return true;
        };
        if let Some(a) = acquire.action() {
            let reply = slot.perform(self.me, a);
            self.acquire = Some(acquire.step(reply));
            return true;
        }
        assert_eq!(acquire.phase(), AcquirePhase::Held);
        let mut guard = self.mutex.enter(acquire).expect("held");
        let v = guard.get().get();
        if let Some(other) = other {
            for _ in 0..8 {
                other.go(slot, None);
            }
        }
        guard.get_mut().set(v + 1);
        self.releasing = guard.release().to_vec();
        true
    }
}

#[test]
fn hw_mutex_contention() {
    const N: u32 = 20_000;
    let mut slot = Slot { owner: None };
    let shared = Rc::new(Cell::new(0));
    let mut core0 = Hammer::new(Core::Core0, N, &shared);
    let mut core3 = Hammer::new(Core::Core3, N, &shared);
    let mut seed = 1u32;
    loop {
        seed = seed.wrapping_mul(1_664_525).wrapping_add(1_013_904_223);
        let more = if seed & 0x8000_0000 == 0 {
            core0.go(&mut slot, Some(&mut core3))
        } else {
            core3.go(&mut slot, Some(&mut core0))
        };
        if !more {
            break;
        }
    }
    while core0.go(&mut slot, None) {}
    while core3.go(&mut slot, None) {}
    assert_eq!(core0.mutex.get_mut().get(), 2 * N);
    assert_eq!(core3.mutex.into_inner().get(), 2 * N);
    assert_eq!(slot.owner, None);
}

#[test]
fn core_identities() {
    assert_eq!(Core::Core0.raw_pid(), 2);
    assert_eq!(Core::Core5.raw_pid(), 7);
    for i in 0..6u8 {
        assert_eq!(Core::from_index(i).unwrap().index(), i);
    }
    assert_eq!(Core::from_index(6), None);
    assert_eq!(Core::from_index(255), None);
}

#[test]
fn cores_are_taken_once() {
    let mut flag = CoresTaken { taken: false };
    let cores = Cores::take(&mut flag).unwrap();
    assert_eq!(cores.core1.core_id(), Core::Core1);
    assert_eq!(cores.core2.core_id(), Core::Core2);
    assert_eq!(cores.core3.core_id(), Core::Core3);
    assert_eq!(cores.core4.core_id(), Core::Core4);
    assert_eq!(cores.core5.core_id(), Core::Core5);
    assert!(Cores::take(&mut flag).is_none());
}

#[test]
fn frame_layout() {
    // Top 0x2000; closure of 12 bytes aligned to 8 at 0x1ff0; frame 16 below.
    assert_eq!(boot_frame(0x1000, 0x1000, 12, 8), Ok(Frame { f_dst: 0x1ff0, sp: 0x1fe0 }));
    // A closure of no size stands at the top.
    assert_eq!(boot_frame(0x1000, 0x1000, 0, 1), Ok(Frame { f_dst: 0x2000, sp: 0x1ff0 }));
    // An odd closure leaves the frame aligned.
    assert_eq!(boot_frame(0x1000, 0x1000, 3, 1), Ok(Frame { f_dst: 0x1ffd, sp: 0x1fe8 }));
    // Exactly the headroom is left.
    assert_eq!(boot_frame(0x1000, 96, 16, 8), Ok(Frame { f_dst: 0x1050, sp: 0x1040 }));
    assert_eq!(boot_frame(0x1000, 95, 16, 8), Err(SpawnError::StackTooSmall));
    assert_eq!(boot_frame(0x1000, 64, 128, 4), Err(SpawnError::StackTooSmall));
    assert_eq!(boot_frame(0, 8, 16, 4), Err(SpawnError::StackTooSmall));
    let _stack: Stack<64> = Stack::new();
}

#[test]
fn boot_sequence() {
    let mut flag = CoresTaken { taken: false };
    let cores = Cores::take(&mut flag).unwrap();
    let boot = spawn(cores.core2, 0x0d08_0000, 4096, 0, 1, 0x0d00_2001).unwrap();
    let mut m = Machine::new();
    let result = m.start(boot, &mut |m: &mut Machine| {
        // Everything is in place when the worker starts to run.
        for i in 0..12u32 {
            assert_eq!(m.mem[&(ACNV_P0_DST0 + 4 * i + 2 * 0x20)], 0xa000 + i);
            assert_eq!(m.mem[&(ACNV_P0_DST0 + 4 * i)], 0xa000 + i);
        }
        m.ack = true;
    });
    assert_eq!(result, Ok(()));
    let bit = 1u32 << 18;
    assert_eq!(m.reset, 0x0001_0000 | bit);
    assert_eq!(m.gate, 0x0001_0000 | bit);
    let release = m
        .log
        .iter()
        .position(|a| *a == BootAction::WriteReg(CrgReg::Reset, 0x0001_0000 | bit))
        .unwrap();
    let barrier = m.log.iter().position(|a| *a == BootAction::Barrier).unwrap();
    let vector = m
        .log
        .iter()
        .position(|a| matches!(a, BootAction::Store { addr: VECTOR_RESETV, .. }))
        .unwrap();
    assert!(vector < barrier && barrier < release);
}

#[test]
fn worker_that_does_not_acknowledge() {
    let mut flag = CoresTaken { taken: false };
    let cores = Cores::take(&mut flag).unwrap();
    let mut boot = spawn(cores.core5, 0x0d08_0000, 4096, 0, 1, 1).unwrap();
    boot.phase = BootPhase::AwaitAck { left: 2 };
    let b1 = boot.step(BootReply::Ack(false));
    let b2 = b1.step(BootReply::Ack(false));
    assert_eq!(b2.step(BootReply::Ack(true)).outcome(), Some(Ok(())));
    assert_eq!(b2.outcome(), None);
    assert_eq!(b2.step(BootReply::Ack(false)).outcome(), Some(Err(SpawnError::Timeout)));
}

#[test]
fn message_words() {
    let m = Message { peer: Core::Core3, msgid: 0xab, pdata: 0x1234, data: 0xdead_beef };
    assert_eq!(m.to_words(), [0x5eab_1234, 0xdead_beef]);
    assert_eq!(Message::from_words([0x5eab_1234, 0xdead_beef]), Some(m));
    // Another protocol, and senders that are not application cores.
    assert_eq!(Message::from_words([0x5dab_1234, 0]), None);
    assert_eq!(Message::from_words([0x0e00_0000, 0]), None);
    assert_eq!(Message::from_words([0x1e00_0000, 0]), None);
    assert_eq!(Message::from_words([0x8e00_0000, 0]), None);
}

#[test]
fn raw_words() {
    assert_eq!(Mailbox::pack_word0(Core::Core1, 0xffff_ffff), 0x3fff_ffff);
    assert_eq!(Mailbox::sender_raw_pid(0x7123_4567), 7);
    assert!(Mailbox::is_tx_full(1));
    assert!(!Mailbox::is_tx_full(0));
    assert!(Mailbox::is_rx_ready(0));
    assert!(!Mailbox::is_rx_ready(2));
    assert_eq!(icc::pack_word0(0x12, 0x1e, 0x1ab, 0x1_2345), 0x2eab_2345);
}

#[test]
fn raw_exchange() {
    let mut fifo = VecDeque::new();
    assert_eq!(raw_recv(Mailbox::try_recv(), &mut fifo), None);
    for i in 0..4u32 {
        let w0 = Mailbox::pack_word0(Core::Core2, i);
        assert_eq!(raw_send(Mailbox::try_send([w0, i]), Core::Core1, &mut fifo), Ok(()));
    }
    assert_eq!(raw_send(Mailbox::try_send([0, 9]), Core::Core1, &mut fifo), Err(Full));
    assert_eq!(fifo.len(), 4);
    assert_eq!(raw_recv(Mailbox::recv_blocking(), &mut fifo), Some([0x3000_0000, 0]));
    assert_eq!(raw_send(Mailbox::send_blocking([0x4000_0009, 9]), Core::Core1, &mut fifo), Ok(()));
    // A sender that waits asks again.
    let s = Mailbox::send_blocking([1, 2]);
    assert_eq!(s.step(FifoReply::Bits(1)).action(), Some(FifoAction::ReadPushFull));
    let r = Mailbox::recv_blocking();
    assert_eq!(r.step(FifoReply::Bits(1)).action(), Some(FifoAction::ReadPullEmpty));
}

#[test]
fn ring_is_a_queue() {
    let mut ring = RxRing::new();
    let m = |i: u16| Message { peer: Core::Core1, msgid: 0, pdata: i, data: 0 };
    assert_eq!(ring.pop(), None);
    for round in 0..5u16 {
        for i in 0..8u16 {
            assert!(!ring.is_full());
            ring.push(m(round * 8 + i));
        }
        assert!(ring.is_full());
        for i in 0..8u16 {
            assert_eq!(ring.pop(), Some(m(round * 8 + i)));
        }
    }
    ring.push(m(1));
    assert_eq!(ring.pop_local(), (Some(m(1)), false));
    assert_eq!(ring.pop_local(), (None, false));
}

#[test]
fn full_ring_stops_the_interrupt() {
    let mut node = Node::new(Core::Core4);
    let (mut inbox, _outbox) = node.take();
    let sent = |i: u16| {
        let m = Message { peer: Core::Core4, msgid: 1, pdata: i, data: 0 };
        let mut w = m.to_words();
        w[0] = (2 << 28) | (w[0] & 0x0fff_ffff);
        w
    };
    node.rx.push_back([0x2a00_0000, 0]); // not of the typed channel
    for i in 0..10u16 {
        node.rx.push_back(sent(i));
    }
    node.mailbox.rx_waker.register(false, 7);
    assert_eq!(node.interrupt(), Some(7));
    assert!(!node.unmasked);
    assert_eq!(node.rx.len(), 10 - RX_RING_DEPTH);
    // The first message that is taken opens the line again.
    assert_eq!(node.try_recv(&mut inbox).unwrap().pdata, 0);
    assert!(node.unmasked);
    assert_eq!(node.interrupt(), None);
    assert!(!node.unmasked);
    for i in 1..10u16 {
        let m = node.try_recv(&mut inbox).unwrap();
        assert_eq!(m.pdata, i);
        assert_eq!(m.peer, Core::Core0);
        node.interrupt();
    }
    assert_eq!(node.try_recv(&mut inbox), None);
}

#[test]
fn ends_are_taken_once() {
    let mut node = Node::new(Core::Core1);
    let _ends = node.take();
    assert!(Inbox::take(Core::Core1, &mut node.mailbox).is_none());
    assert!(Outbox::take(Core::Core1, &mut node.mailbox).is_none());
}

#[test]
fn message_between_look_and_registration_is_found() {
    let mut node = Node::new(Core::Core1);
    let (mut inbox, _outbox) = node.take();
    let m = Message { peer: Core::Core0, msgid: 1, pdata: 2, data: 3 };
    let poll = inbox.recv().popped(None);
    node.mailbox.ring.push(m);
    let poll = poll.registered();
    let (msg, _) = inbox.try_recv(&mut node.mailbox.ring);
    assert_eq!(poll.popped(msg), RecvPoll::Ready(m));
}

#[test]
fn send_polls() {
    let mut node = Node::new(Core::Core1);
    let (_inbox, mut outbox) = node.take();
    let m = Message { peer: Core::Core0, msgid: 1, pdata: 2, data: 3 };
    let p = outbox.send(m);
    assert_eq!(p.words, m.to_words());
    assert_eq!(p.tried(Ok(())).phase, SendPollPhase::Ready);
    let p = p.tried(Err(Full));
    assert_eq!(p.phase, SendPollPhase::Register);
    assert_eq!(p.line(), None);
    let p = p.done();
    assert_eq!(p.line(), Some(LineAction::Unmask(Line::FifoTo)));
    let p = p.done();
    assert_eq!(p.phase, SendPollPhase::Again);
    assert_eq!(p.tried(Err(Full)).phase, SendPollPhase::Pending);
    let p = p.tried(Ok(()));
    assert_eq!(p.line(), Some(LineAction::Mask(Line::FifoTo)));
    assert_eq!(p.done().phase, SendPollPhase::Ready);

    node.mailbox.tx_waker.register(false, 5);
    node.mailbox.tx_waker.register(true, 6);
    assert_eq!(node.mailbox.tx_waker.registered(), &Some(5));
    assert_eq!(
        on_tx_interrupt(&mut node.mailbox.tx_waker),
        (LineAction::Mask(Line::FifoTo), Some(5))
    );
    assert_eq!(on_tx_interrupt(&mut node.mailbox.tx_waker).1, None);
}

fn run_lock(mut l: SphLock, slot: &mut Slot) -> SphLock {
    for _ in 0..10 {
        match l.action() {
            Some(a) => {
                let reply = slot.perform(l.me, a);
                l = l.step(reply);
            }
            None => break,
        }
    }
    l
}

#[test]
fn semaphore_is_not_reentrant() {
    let mut slot = Slot { owner: None };
    let sph: Sph<3> = Sph::new();
    assert_eq!(run_lock(sph.try_lock(4), &mut slot).phase, LockPhase::Finished(true));
    assert_eq!(slot.owner, Some(4));
    assert_eq!(run_lock(sph.try_lock(4), &mut slot).phase, LockPhase::Finished(false));
    assert_eq!(run_lock(sph.lock(4), &mut slot).phase, LockPhase::Reentrant);
    assert_eq!(run_lock(sph.try_lock(5), &mut slot).phase, LockPhase::Finished(false));
    // A core that waits goes on asking.
    assert!(run_lock(sph.lock(5), &mut slot).action().is_some());
    assert_eq!(sph.owner(1, 4), Some(4));
    slot.perform(4, sph.unlock());
    assert_eq!(sph.owner(0, 4), None);
    assert_eq!(run_lock(sph.lock(5), &mut slot).phase, LockPhase::Finished(true));
    assert_eq!(RESERVED_CS_ID, 15);
}

#[test]
fn section_has_its_barriers() {
    let sph: Sph<2> = Sph::new();
    let a = sph.with(6);
    let a = a.step(SphReply::Status { state: 0, owner: 0 });
    assert_eq!(a.action(), Some(SphAction::Command { n: 2, value: 1 }));
    let a = a.step(SphReply::Done).step(SphReply::Status { state: 1, owner: 6 });
    assert_eq!(a.action(), Some(SphAction::Barrier));
    let a = a.step(SphReply::Done);
    assert_eq!(a.phase(), AcquirePhase::Held);
    assert_eq!(a.slot(), 2);
    assert_eq!(
        release_steps(2),
        [
            SphAction::CompilerFence,
            SphAction::Barrier,
            SphAction::Command { n: 2, value: 0 },
        ]
    );
}

/// Runs an attempt of core `me` to its end.
fn acquired(mut a: Acquire, me: u8, slot: &mut Slot) -> Acquire {
    while let Some(action) = a.action() {
        let reply = slot.perform(me, action);
        a = a.step(reply);
    }
    a
}

#[test]
fn first_lock_command_wins() {
    let m: HwMutex<4, ()> = HwMutex::new(());
    let mut slot = Slot { owner: None };
    let mut first = m.try_lock(3);
    let mut second = m.try_lock(4);
    // Both see the slot idle, and the first gives its command first.
    for _ in 0..2 {
        let reply = slot.perform(3, first.action().unwrap());
        first = first.step(reply);
    }
    second = second.step(SphReply::Status { state: 0, owner: 0 });
    let second = acquired(second, 4, &mut slot);
    assert_eq!(second.phase(), AcquirePhase::Refused);
    let late = acquired(m.try_lock(5), 5, &mut slot);
    assert_eq!(late.phase(), AcquirePhase::Refused);
    let first = acquired(first, 3, &mut slot);
    assert_eq!(first.phase(), AcquirePhase::Held);
    assert_eq!(slot.owner, Some(3));
}

#[test]
fn mutex_is_entered_only_when_held() {
    let mut m: HwMutex<1, u32> = HwMutex::new(5);
    let other: HwMutex<2, u32> = HwMutex::new(6);
    let mut slot = Slot { owner: None };
    // Not before the semaphore is taken.
    let early = m.try_lock(3);
    assert!(m.enter(early).is_none());
    // Not with the semaphore of another mutex.
    let foreign = acquired(other.lock(3), 3, &mut Slot { owner: None });
    assert_eq!(foreign.phase(), AcquirePhase::Held);
    assert!(m.enter(foreign).is_none());
    let held = acquired(m.lock(3), 3, &mut slot);
    assert_eq!(held.phase(), AcquirePhase::Held);
    let mut guard = m.enter(held).unwrap();
    assert_eq!(*guard.get(), 5);
    *guard.get_mut() = 7;
    let steps = guard.release();
    // While it is held, nobody else gets in, and neither does the same core again.
    for me in [3, 4] {
        let refused = acquired(m.try_lock(me), me, &mut slot);
        assert_eq!(refused.phase(), AcquirePhase::Refused);
        assert!(m.enter(refused).is_none());
    }
    let reentrant = acquired(m.lock(3), 3, &mut slot);
    assert_eq!(reentrant.phase(), AcquirePhase::Reentrant);
    assert!(m.enter(reentrant).is_none());
    for a in steps {
        slot.perform(3, a);
    }
    let held = acquired(m.try_lock(4), 4, &mut slot);
    assert_eq!(*m.enter(held).unwrap().get(), 7);
}
