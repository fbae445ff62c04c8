use std::collections::VecDeque;

use cxd56::clocks::{Clock, Clocks, Crg, Hp};
use cxd56::farapi::FarMsg;
use cxd56::gnss::boot::RTC_SPIN_BUDGET;
use cxd56::gnss::latch::{Goal, Latch, Service, SigPhase, SigSend, Wait, WaitPhase};
use cxd56::gnss::proto::{as_signed, classify, sig_words, Event};
use cxd56::gnss::rpc::{Rpc, RpcPhase};
use cxd56::gnss::rtc::{deadline_after_ms, remaining_ms, rtc_now};
use cxd56::gnss::{
    Gnss, GnssError, GpsFamily, Idle, OperationMode, Running, SatelliteSystems, Secondary,
    Singleton, StartMode,
};
use cxd56::icc::{Action, Reply};
use cxd56::units::Hertz;

fn hp_clock() -> Clock<Hp> {
    let f = Hertz::from_hz(156_000_000);
    let sample = Clocks {
        xosc: f,
        rcosc: f,
        rtc: f,
        scu: f,
        hpadc: f,
        lpadc: f,
        syspll: f,
        sys: f,
        sys_ahb: f,
        sys_apb: f,
        sys_sfc: f,
        com: f,
        pmui2c: f,
        gps_cpu: f,
        gps_ahb: f,
        appsmp: f,
        usb: f,
        sdio: f,
        img_uart: f,
        img_spi: f,
        img_wspi: f,
        img_vsync: f,
    };
    Clock::lock::<()>(Crg {}, Ok(sample)).ok().unwrap()
}

const POSITION: [u32; 2] = [0x1000_0000, 0x000];
const BOOTCOMP: [u32; 2] = [0x1000_0000, 0x100];
const REQ_BACKUP: [u32; 2] = [0x1000_0000, 0x200];
const REQ_CEP: [u32; 2] = [0x1000_0000, 0x500];

/// The other cores, the FIFO, and the clock.
struct Board {
    tick: u64,
    tick_step: u64,
    flags: VecDeque<[u32; 2]>,
    notes: VecDeque<[u32; 2]>,
    arg: [u32; 4],
    block: Option<FarMsg>,
    /// Target core, function, and arguments of each remote call.
    calls: Vec<(u32, i32, [u32; 4])>,
    /// Functions that fail, with what they return.
    fails: Vec<(i32, i32)>,
    /// Notifications that a call of a function brings.
    brings: Vec<(i32, [u32; 2])>,
    signals: Vec<[u32; 2]>,
    /// How start and stop commands are acknowledged.
    ack: Option<i32>,
    retvals: Vec<i32>,
    switches: Vec<(u8, bool, u64)>,
    fifo_dead: bool,
    rail_dead: bool,
    /// The FIFO refuses two pushes of three, the event flags hold others' and stale ones, and
    /// every second reading of the clock is torn.
    busy: bool,
    tries: u32,
}

impl Board {
    fn new() -> Board {
        Board {
            tick: 1_000,
            tick_step: 100,
            flags: VecDeque::new(),
            notes: VecDeque::new(),
            arg: [0; 4],
            block: None,
            calls: Vec::new(),
            fails: Vec::new(),
            brings: vec![(64, BOOTCOMP)],
            signals: Vec::new(),
            ack: Some(0),
            retvals: Vec::new(),
            switches: Vec::new(),
            fifo_dead: false,
            rail_dead: false,
            busy: false,
            tries: 0,
        }
    }

    fn perform(&mut self, a: Action) -> Reply {
        if matches!(a, Action::Push(_) | Action::ReadRtc) {
            self.tries += 1;
        }
        match a {
            Action::Push(_) if self.busy && self.tries % 3 != 0 => {
                // What comes in meanwhile.
                self.notes.push_back([0x1000_0000, 0x300]);
                Reply::Pushed(false)
            }
            Action::ReadRtc if self.busy && self.tries % 2 != 0 => {
                Reply::Rtc { hi: 1, lo: 0, again: 2 }
            }
            Action::Stage(arg) => {
                self.arg = arg;
                Reply::Staged { cpuid: 2, arg: 0x0d00_1000 }
            }
            Action::ReadArg => Reply::Word(self.arg[0]),
            Action::Publish(m) => {
                assert_eq!(m.api.arg, 0x0d00_1000);
                self.block = Some(m);
                Reply::Address(0x0d00_2000)
            }
            Action::Barrier | Action::DrainRx => Reply::Done,
            Action::Push(w) => Reply::Pushed(self.push(w)),
            Action::PopFlg => Reply::Words(self.flags.pop_front()),
            Action::PopMsg => Reply::Words(self.notes.pop_front()),
            Action::ReadRtc => {
                self.tick += self.tick_step;
                let hi = (self.tick >> 15) as u32;
                Reply::Rtc { hi, lo: (self.tick & 0x7fff) as u32, again: hi }
            }
            Action::SetRetval(v) => {
                self.retvals.push(v);
                Reply::Done
            }
            Action::SetLoadswitch { channel, on } => {
                self.switches.push((channel, on, self.tick));
                Reply::Switched(!self.rail_dead)
            }
        }
    }

    fn push(&mut self, w: [u32; 2]) -> bool {
        if self.fifo_dead {
            return false;
        }
        let core = w[0] >> 28;
        match (w[0] >> 24) & 0xf {
            1 => {
                assert_eq!(w[1], 0x0d00_2000);
                let api = self.block.unwrap().api.id;
                self.calls.push((core, api, self.arg));
                let ret = self.fails.iter().find(|f| f.0 == api).map_or(0, |f| f.1);
                self.arg[0] = ret as u32;
                for b in &self.brings {
                    if b.0 == api {
                        self.notes.push_back(b.1);
                    }
                }
                if self.busy {
                    self.flags.push_back([(core << 28) | 0x0300_0301, 0]);
                }
                self.flags.push_back([(core << 28) | 0x0300_0307, 0]);
            }
            3 => {}
            13 => {
                self.signals.push(w);
                if (w[0] >> 16) & 0xff == 13 {
                    if let Some(ret) = self.ack {
                        self.notes.push_back([0x1000_0000, ((ret as u32) << 8) | 13]);
                    }
                }
            }
            _ => unreachable!(),
        }
        true
    }

    fn boot<'c>(
        &mut self,
        slot: &mut Singleton,
        clock: &'c Clock<Hp>,
    ) -> Result<Gnss<'c, Idle>, GnssError> {
        let mut b = Gnss::boot(slot, clock, 0x0d00_3000, 0x0d00_4000)?;
        while let Some(a) = b.action() {
            b.step(self.perform(a));
        }
        assert!(b.is_finished() && !b.is_poisoned());
        b.finish(slot)
    }

    fn start<'c>(
        &mut self,
        g: Gnss<'c, Idle>,
        mode: StartMode,
    ) -> Result<Gnss<'c, Running>, (Gnss<'c, Idle>, GnssError)> {
        let mut s = g.start(mode);
        while let Some(a) = s.action() {
            s.step(self.perform(a));
        }
        assert!(s.is_finished() && !s.is_poisoned());
        s.finish()
    }

    fn stop<'c>(
        &mut self,
        g: Gnss<'c, Running>,
    ) -> Result<Gnss<'c, Idle>, (Gnss<'c, Running>, GnssError)> {
        let mut s = g.stop();
        while let Some(a) = s.action() {
            s.step(self.perform(a));
        }
        assert!(s.is_finished() && !s.is_poisoned());
        s.finish()
    }

    fn wait_update(
        &mut self,
        g: &mut Gnss<'_, Running>,
        timeout_ms: u32,
    ) -> Result<(), GnssError> {
        let mut w = g.wait_update(timeout_ms);
        while let Some(a) = w.action() {
            w.step(self.perform(a));
        }
        assert!(!w.is_poisoned());
        w.finish().unwrap()
    }

    fn shutdown(&mut self, g: Gnss<'_, Idle>, slot: &mut Singleton) -> Result<(), GnssError> {
        let mut s = g.shutdown();
        while let Some(a) = s.action() {
            s.step(self.perform(a));
        }
        assert!(s.is_finished() && !s.is_poisoned());
        s.finish(slot).unwrap()
    }
}

#[test]
fn boot_sequence_of_calls() {
    let clock = hp_clock();
    let mut slot = Singleton::new();
    let mut board = Board::new();
    let g = board.boot(&mut slot, &clock).ok().unwrap();
    assert_eq!(
        board.calls,
        vec![
            (0, 72, [1, 7, 0, 0]),
            (0, 72, [1, 2, 0, 0]),
            (0, 92, [1, 0x0d00_3000, 0, 0]),
            (0, 64, [1, 1, 0, 0]),
            (0, 72, [1, 8, 0, 0]),
            (1, 148, [6, 0, 0x0d00_4000, 32]),
        ]
    );
    assert!(slot.taken);
    // The firmware may be started two seconds after the clock reading that followed its signal.
    assert_eq!(g.settle_remaining_ms(board.tick), 2_000);
    assert_eq!(g.settle_remaining_ms(board.tick + 65_535), 1);
    assert_eq!(g.settle_remaining_ms(board.tick + 65_536), 0);
}

#[test]
fn driver_is_taken_once() {
    let clock = hp_clock();
    let mut slot = Singleton::new();
    let mut board = Board::new();
    let g = board.boot(&mut slot, &clock).ok().unwrap();
    assert!(matches!(board.boot(&mut slot, &clock), Err(GnssError::Taken)));
    assert_eq!(board.shutdown(g, &mut slot), Ok(()));
    assert!(!slot.taken);
    assert!(board.boot(&mut slot, &clock).is_ok());
}

#[test]
fn clock_that_stands_still() {
    let clock = hp_clock();
    let mut slot = Singleton::new();
    let mut board = Board::new();
    board.tick_step = 0;
    let mut reads = 0;
    let mut b = Gnss::boot(&mut slot, &clock, 0, 0).ok().unwrap();
    while let Some(a) = b.action() {
        reads += 1;
        b.step(board.perform(a));
    }
    assert!(matches!(b.finish(&mut slot), Err(GnssError::RtcNotReady)));
    assert_eq!(reads, RTC_SPIN_BUDGET + 1);
    assert!(board.calls.is_empty());
    assert!(!slot.taken);
}

#[test]
fn image_that_cannot_be_loaded() {
    let clock = hp_clock();
    let mut slot = Singleton::new();
    let mut board = Board::new();
    board.fails = vec![(92, -2)];
    assert!(matches!(board.boot(&mut slot, &clock), Err(GnssError::Firmware(-2))));
    assert_eq!(board.calls.len(), 3);
    assert!(!slot.taken);
}

#[test]
fn core_that_does_not_start_is_powered_down() {
    let clock = hp_clock();
    let mut slot = Singleton::new();
    let mut board = Board::new();
    board.fails = vec![(64, -5)];
    assert!(matches!(board.boot(&mut slot, &clock), Err(GnssError::Firmware(-5))));
    assert_eq!(board.calls[4..], [(0, 72, [1, 7, 0, 0]), (0, 72, [1, 2, 0, 0])]);
    assert!(!slot.taken);
}

#[test]
fn firmware_that_never_finishes() {
    let clock = hp_clock();
    let mut slot = Singleton::new();
    let mut board = Board::new();
    board.brings.clear();
    assert!(matches!(board.boot(&mut slot, &clock), Err(GnssError::BootTimeout)));
    assert_eq!(board.calls[5..], [(0, 72, [1, 7, 0, 0]), (0, 72, [1, 2, 0, 0])]);
    // Five seconds went by, and not many ticks more.
    assert!(board.tick >= 163_840 && board.tick < 166_000);
    assert!(!slot.taken);
}

#[test]
fn failed_registration_powers_down() {
    let clock = hp_clock();
    let mut slot = Singleton::new();
    let mut board = Board::new();
    board.fails = vec![(148, -22)];
    assert!(matches!(board.boot(&mut slot, &clock), Err(GnssError::Firmware(-22))));
    assert_eq!(board.calls[6..], [(0, 72, [1, 7, 0, 0]), (0, 72, [1, 2, 0, 0])]);
}

#[test]
fn requests_are_answered_during_boot() {
    let clock = hp_clock();
    let mut slot = Singleton::new();
    let mut board = Board::new();
    board.brings = vec![(64, REQ_BACKUP), (64, REQ_CEP), (64, BOOTCOMP)];
    assert!(board.boot(&mut slot, &clock).is_ok());
    assert_eq!(board.retvals, vec![-2, -2]);
    assert_eq!(board.signals, vec![[0x1d0a_0000, 0], [0x1d08_0000, 0]]);
}

#[test]
fn busy_board() {
    let clock = hp_clock();
    let mut slot = Singleton::new();
    let mut board = Board::new();
    board.busy = true;
    board.flags.push_back([0x0300_0307, 0]);
    // The firmware asks for stored data before it signals that it finished.
    board.brings = vec![(64, REQ_BACKUP), (72, REQ_CEP), (72, POSITION), (64, BOOTCOMP)];
    let g = board.boot(&mut slot, &clock).ok().unwrap();
    let calls: Vec<i32> = board.calls.iter().map(|c| c.1).collect();
    assert_eq!(calls, vec![72, 72, 92, 64, 72, 148]);
    let backup = board.signals.iter().filter(|s| **s == [0x1d0a_0000, 0]).count();
    let orbit = board.signals.iter().filter(|s| **s == [0x1d08_0000, 0]).count();
    assert_eq!((backup, orbit), (1, 3));
    assert_eq!(board.retvals, vec![-2; 4]);

    board.signals.clear();
    board.notes.extend([REQ_BACKUP, POSITION, REQ_CEP]);
    board.ack = Some(5);
    let mut g = board.start(g, StartMode::Hot).ok().unwrap();
    assert_eq!(
        board.signals,
        vec![[0x1d0a_0000, 0], [0x1d08_0000, 0], [0x1d0d_0000, 0x300]]
    );
    // The epoch that came earlier.
    assert_eq!(board.wait_update(&mut g, 0), Ok(()));
    board.brings.clear();
    assert_eq!(board.wait_update(&mut g, 10), Err(GnssError::UpdateTimeout));
    board.brings = vec![(152, REQ_BACKUP), (152, POSITION)];
    assert_eq!(board.wait_update(&mut g, 10), Ok(()));
    board.ack = Some(-6);
    board.notes.push_back(REQ_CEP);
    let (g, e) = board.stop(g).err().unwrap();
    assert_eq!(e, GnssError::Firmware(-6));
    board.ack = None;
    let (g, e) = board.stop(g).err().unwrap();
    assert_eq!(e, GnssError::AckTimeout);
    board.ack = Some(0);
    let g = board.stop(g).ok().unwrap();
    board.fails = vec![(72, -9)];
    assert_eq!(board.shutdown(g, &mut slot), Err(GnssError::Firmware(-9)));
}

#[test]
fn busy_board_with_silent_firmware() {
    let clock = hp_clock();
    let mut slot = Singleton::new();
    let mut board = Board::new();
    board.busy = true;
    board.brings = vec![(64, REQ_BACKUP), (72, POSITION)];
    assert!(matches!(board.boot(&mut slot, &clock), Err(GnssError::BootTimeout)));
    assert_eq!(board.calls[5..], [(0, 72, [1, 7, 0, 0]), (0, 72, [1, 2, 0, 0])]);
}

#[test]
fn dead_transport_poisons() {
    let clock = hp_clock();
    let mut slot = Singleton::new();
    let mut board = Board::new();
    let g = board.boot(&mut slot, &clock).ok().unwrap();
    board.fifo_dead = true;
    let mut s = g.shutdown();
    while let Some(a) = s.action() {
        s.step(board.perform(a));
    }
    assert!(s.is_poisoned() && !s.is_finished());
    assert_eq!(s.finish(&mut slot), None);
    assert!(slot.taken);
}

#[test]
fn start_waits_for_the_firmware() {
    let clock = hp_clock();
    let mut slot = Singleton::new();
    let mut board = Board::new();
    let g = board.boot(&mut slot, &clock).ok().unwrap();
    let booted = board.tick;
    let g = board.start(g, StartMode::Hot).ok().unwrap();
    assert_eq!(board.signals, vec![[0x1d0d_0000, 0x300]]);
    assert_eq!(board.switches.len(), 1);
    let (channel, on, at) = board.switches[0];
    assert_eq!((channel, on), (0x10, true));
    assert!(at >= booted + 65_536);

    let g = board.stop(g).ok().unwrap();
    assert_eq!(board.signals[1], [0x1d0d_0000, 1]);
    // A second start does not wait, and the rail was never dropped.
    let before = board.tick;
    let _g = board.start(g, StartMode::Cold).ok().unwrap();
    assert!(board.tick < before + 1_000);
    assert_eq!(board.signals[2], [0x1d0d_0000, 0x000]);
    assert!(board.switches.iter().all(|s| s.1));
}

#[test]
fn refused_start_gives_the_driver_back() {
    let clock = hp_clock();
    let mut slot = Singleton::new();
    let mut board = Board::new();
    let g = board.boot(&mut slot, &clock).ok().unwrap();
    board.ack = Some(-77);
    let (g, e) = board.start(g, StartMode::Warm).err().unwrap();
    assert_eq!(e, GnssError::Firmware(-77));
    assert_eq!(board.signals, vec![[0x1d0d_0000, 0x100]]);
    board.ack = None;
    let (g, e) = board.start(g, StartMode::Warm).err().unwrap();
    assert_eq!(e, GnssError::AckTimeout);
    board.ack = Some(0);
    assert!(board.start(g, StartMode::Warm).is_ok());
}

#[test]
fn dead_rail_poisons() {
    let clock = hp_clock();
    let mut slot = Singleton::new();
    let mut board = Board::new();
    let g = board.boot(&mut slot, &clock).ok().unwrap();
    board.rail_dead = true;
    let mut s = g.start(StartMode::Hot);
    while let Some(a) = s.action() {
        s.step(board.perform(a));
    }
    assert!(s.is_poisoned());
    assert!(board.signals.is_empty());
}

#[test]
fn refused_stop_gives_the_driver_back() {
    let clock = hp_clock();
    let mut slot = Singleton::new();
    let mut board = Board::new();
    let g = board.boot(&mut slot, &clock).ok().unwrap();
    let g = board.start(g, StartMode::Hot).ok().unwrap();
    board.ack = Some(-1);
    board.notes.push_back(POSITION);
    let (mut g, e) = board.stop(g).err().unwrap();
    assert_eq!(e, GnssError::Firmware(-1));
    // The epoch that came meanwhile is there.
    let calls = board.calls.len();
    assert_eq!(board.wait_update(&mut g, 0), Ok(()));
    assert_eq!(board.calls.len(), calls);
    board.ack = None;
    assert_eq!(board.stop(g).err().unwrap().1, GnssError::AckTimeout);
}

#[test]
fn updates() {
    let clock = hp_clock();
    let mut slot = Singleton::new();
    let mut board = Board::new();
    let g = board.boot(&mut slot, &clock).ok().unwrap();
    let mut g = board.start(g, StartMode::Hot).ok().unwrap();
    // The notification is armed, and comes after that.
    board.brings = vec![(152, POSITION)];
    assert_eq!(board.wait_update(&mut g, 1_000), Ok(()));
    assert_eq!(*board.calls.last().unwrap(), (1, 152, [0, 0, 0, 0]));
    // It does not come.
    board.brings.clear();
    let before = board.tick;
    assert_eq!(board.wait_update(&mut g, 1_000), Err(GnssError::UpdateTimeout));
    assert!(board.tick >= before + 32_768 && board.tick < before + 33_200);
    // It cannot be armed.
    board.fails = vec![(152, -3)];
    assert_eq!(board.wait_update(&mut g, 1_000), Err(GnssError::Firmware(-3)));
    // It cannot be armed, and comes all the same: the next wait gets it.
    board.brings = vec![(152, POSITION)];
    assert_eq!(board.wait_update(&mut g, 1_000), Err(GnssError::Firmware(-3)));
    let calls = board.calls.len();
    assert_eq!(board.wait_update(&mut g, 1_000), Ok(()));
    assert_eq!(board.calls.len(), calls);
}

#[test]
fn epoch_during_a_call_is_kept() {
    let clock = hp_clock();
    let mut slot = Singleton::new();
    let mut board = Board::new();
    let g = board.boot(&mut slot, &clock).ok().unwrap();
    let mut g = board.start(g, StartMode::Hot).ok().unwrap();
    board.notes.push_back(POSITION);
    let mut c = g.read_position(0x0d00_5000, 0x100);
    while let Some(a) = c.action() {
        c.step(board.perform(a));
    }
    assert!(c.is_finished() && !c.is_poisoned());
    assert_eq!(c.finish(), Ok(()));
    assert_eq!(*board.calls.last().unwrap(), (1, 144, [0, 0, 0x0d00_5000, 0x100]));
    let calls = board.calls.len();
    assert_eq!(board.wait_update(&mut g, 1), Ok(()));
    assert_eq!(board.calls.len(), calls);
}

#[test]
fn configuration_calls() {
    let clock = hp_clock();
    let mut slot = Singleton::new();
    let mut board = Board::new();
    let mut g = board.boot(&mut slot, &clock).ok().unwrap();
    let systems = SatelliteSystems::new(GpsFamily::gps() | GpsFamily::sbas(), Secondary::Galileo);

    let mut c = g.select_systems(systems);
    while let Some(a) = c.action() {
        c.step(board.perform(a));
    }
    assert_eq!(c.finish(), Ok(()));
    assert_eq!(*board.calls.last().unwrap(), (1, 12, [0x85, 0, 0, 0]));

    let mut c = g.systems(0x0d00_5000);
    while let Some(a) = c.action() {
        c.step(board.perform(a));
    }
    assert_eq!(c.finish_systems(0x85), Ok(systems));
    assert_eq!(*board.calls.last().unwrap(), (1, 16, [0x0d00_5000, 0, 0, 0]));

    let mut c = g.set_operation(OperationMode::Normal, 2_000);
    while let Some(a) = c.action() {
        c.step(board.perform(a));
    }
    assert_eq!(c.finish(), Ok(()));
    assert_eq!(*board.calls.last().unwrap(), (1, 28, [1, 2_000, 0, 0]));

    for (mode, expected) in [
        (1, Ok((OperationMode::Normal, 1_000))),
        (3, Err(GnssError::Firmware(-3))),
        (0xffff_ffff, Err(GnssError::Firmware(1))),
        (0x8000_0000, Err(GnssError::Firmware(i32::MIN))),
    ] {
        let mut c = g.operation(0x0d00_5000, 0x0d00_5004);
        while let Some(a) = c.action() {
            c.step(board.perform(a));
        }
        assert_eq!(c.finish_operation(mode, 1_000), expected);
    }
    assert_eq!(*board.calls.last().unwrap(), (1, 32, [0x0d00_5000, 0x0d00_5004, 0, 0]));

    board.fails = vec![(12, -22), (16, -23), (32, -24)];
    let mut c = g.select_systems(SatelliteSystems::from_bits(0xc0));
    while let Some(a) = c.action() {
        c.step(board.perform(a));
    }
    assert_eq!(c.finish(), Err(GnssError::Firmware(-22)));
    let mut c = g.systems(0);
    while let Some(a) = c.action() {
        c.step(board.perform(a));
    }
    assert_eq!(c.finish_systems(0x85), Err(GnssError::Firmware(-23)));
    let mut c = g.operation(0, 0);
    while let Some(a) = c.action() {
        c.step(board.perform(a));
    }
    assert_eq!(c.finish_operation(1, 0), Err(GnssError::Firmware(-24)));
    assert_eq!(g.firmware_version(0x2120_4567), (2, 0x12, 0x0_4567));
}

#[test]
fn failed_shutdown_frees_the_driver() {
    let clock = hp_clock();
    let mut slot = Singleton::new();
    let mut board = Board::new();
    let g = board.boot(&mut slot, &clock).ok().unwrap();
    board.fails = vec![(72, -9)];
    assert_eq!(board.shutdown(g, &mut slot), Err(GnssError::Firmware(-9)));
    assert!(!slot.taken);
}

#[test]
fn meanings() {
    assert_eq!(classify(POSITION), Event::Position);
    assert_eq!(classify(BOOTCOMP), Event::BootComp);
    assert_eq!(classify(REQ_BACKUP), Event::ReqBackupData);
    assert_eq!(classify(REQ_CEP), Event::ReqCepData);
    for value in [3u32, 4, 6] {
        assert_eq!(classify([0x1000_0000, value << 8]), Event::CepHousekeeping);
    }
    assert_eq!(classify([0x1000_0000, 7 << 8]), Event::Other);
    assert_eq!(classify([0x1000_0000, 0xffff_ff00]), Event::Other);
    assert_eq!(classify([0x1000_0000, 0xffff_fe0d]), Event::CpuFifoApiRet(-2));
    assert_eq!(classify([0x1000_0000, 0x7fff_ff0d]), Event::CpuFifoApiRet(0x7f_ffff));
    assert_eq!(classify([0x1000_0000, 0x101]), Event::Other);
    // Another sender, and another protocol.
    assert_eq!(classify([0x2000_0000, 0x100]), Event::Other);
    assert_eq!(classify([0x1100_0000, 0x100]), Event::Other);
    assert_eq!(sig_words(0x10d, 0x300), [0x1d0d_0000, 0x300]);
    assert_eq!(classify(sig_words(13, 0x100)), Event::Other);
    assert_eq!(as_signed(0xffff_ffff), -1);
    assert_eq!(as_signed(0x7fff_ffff), i32::MAX);
}

#[test]
fn clock_arithmetic() {
    assert_eq!(rtc_now(3, 0xffff_8005, 3), Some(3 * 0x8000 + 5));
    assert_eq!(rtc_now(3, 5, 4), None);
    assert_eq!(rtc_now(u32::MAX, u32::MAX, u32::MAX), Some(0x7fff_ffff_ffff));
    assert_eq!(deadline_after_ms(10, 1_000), 10 + 32_768);
    assert_eq!(deadline_after_ms(10, 1), 10 + 33);
    assert_eq!(deadline_after_ms(10, 0), 10);
    assert_eq!(remaining_ms(32_768, 0), 1_000);
    assert_eq!(remaining_ms(33, 0), 2);
    assert_eq!(remaining_ms(5, 5), 0);
    assert_eq!(remaining_ms(5, 6), 0);
}

#[test]
fn latch_remembers() {
    let mut l = Latch::default();
    for ev in [
        Event::Position,
        Event::BootComp,
        Event::CpuFifoApiRet(-4),
        Event::ReqBackupData,
        Event::ReqCepData,
        Event::CepHousekeeping,
        Event::Other,
    ] {
        l.absorb(ev);
    }
    assert_eq!(
        l,
        Latch {
            position: true,
            bootcomp: true,
            cpufifo_ret: Some(-4),
            req_backup: true,
            req_cep: true,
        }
    );
    l.absorb(Event::CpuFifoApiRet(3));
    assert_eq!(l.cpufifo_ret, Some(3));
}

#[test]
fn signal_that_never_goes_out() {
    let mut s = SigSend::send_sig(8, 0);
    s.phase = SigPhase::Push { left: 2 };
    let mut latch = Latch::default();
    let mut pops = 0;
    while let Some(a) = s.action() {
        let reply = match a {
            Action::Push(_) => Reply::Pushed(false),
            Action::DrainRx => Reply::Done,
            Action::PopMsg => {
                pops += 1;
                Reply::Words(Some(POSITION))
            }
            _ => unreachable!(),
        };
        let (s2, l2) = s.step(latch, reply);
        s = s2;
        latch = l2;
    }
    assert!(matches!(s.phase, SigPhase::Jammed));
    assert_eq!(pops, 2);
    assert!(latch.position);
}

#[test]
fn waits() {
    // What was latched earlier is found without a look at the clock.
    let w = Wait::wait_until(100, Goal::Position);
    let mut seen = Latch::default();
    seen.position = true;
    let (w2, l2) = w.step(seen, Reply::Words(None));
    assert!(matches!(w2.phase, WaitPhase::Finished(true)));
    assert!(!l2.position);
    // An acknowledgement stays latched.
    let w = Wait::wait_until(100, Goal::Ack);
    let (w, l) = w.step(Latch::default(), Reply::Words(Some([0x1000_0000, 0x40d])));
    let (w, l) = w.step(l, Reply::Words(None));
    assert!(matches!(w.phase, WaitPhase::Finished(true)));
    assert_eq!(l.cpufifo_ret, Some(4));
    // The deadline itself is too late.
    let w = Wait::wait_until(100, Goal::Never);
    let (w, l) = w.step(Latch::default(), Reply::Words(None));
    assert!(matches!(w.action(), Some(Action::ReadRtc)));
    let (again, _) = w.step(l, Reply::Rtc { hi: 0, lo: 99, again: 0 });
    assert!(matches!(again.action(), Some(Action::PopMsg)));
    let (torn, _) = w.step(l, Reply::Rtc { hi: 0, lo: 100, again: 1 });
    assert!(matches!(torn.action(), Some(Action::ReadRtc)));
    let (over, _) = w.step(l, Reply::Rtc { hi: 0, lo: 100, again: 0 });
    assert!(matches!(over.phase, WaitPhase::Finished(false)));
    let (s, _) = Service::service_requests(Latch::default());
    assert!(matches!(s, Service::Finished));
}

#[test]
fn timed_out_call_has_no_return_value() {
    let mut board = Board::new();
    board.fifo_dead = true;
    let mut rpc = Rpc::rpc(0, 0, 72, [1, 2, 0, 0], 3);
    let mut latch = Latch::default();
    while let Some(a) = rpc.action() {
        assert!(!matches!(a, Action::ReadArg));
        let (r, l) = rpc.step(latch, board.perform(a));
        rpc = r;
        latch = l;
    }
    assert!(matches!(rpc.phase, RpcPhase::Poisoned));
}

#[test]
fn satellite_systems() {
    let all = GpsFamily::gps()
        .union(GpsFamily::sbas())
        .union(GpsFamily::qzss_l1ca())
        .union(GpsFamily::imes())
        .union(GpsFamily::qzss_l1s());
    assert_eq!(all.bits(), 0x3d);
    assert_eq!(GpsFamily::none().bits(), 0);
    assert!(all.contains(GpsFamily::sbas() | GpsFamily::gps()));
    assert!(!GpsFamily::gps().contains(all));
    let mut some = GpsFamily::gps();
    some |= GpsFamily::imes();
    assert_eq!(some.bits(), 0x11);
    assert_eq!(Secondary::Empty.bits(), 0);
    for (s, bits) in [
        (Secondary::Glonass, 0x02),
        (Secondary::BeiDou, 0x40),
        (Secondary::Galileo, 0x80),
    ] {
        let chosen = SatelliteSystems::new(all, s);
        assert_eq!(chosen.bits(), 0x3d | bits);
        assert_eq!(SatelliteSystems::from_bits(chosen.bits()), chosen);
        assert!(chosen.contains(SatelliteSystems::new(GpsFamily::none(), s)));
        assert_eq!((chosen.bits() & 0xc2).count_ones(), 1);
    }
    assert_eq!(SatelliteSystems::from_bits(0xff).bits(), 0xff);
    assert_eq!(StartMode::Cold.code(), 0);
    assert_eq!(StartMode::Warm.code(), 1);
    assert_eq!(StartMode::Hot.code(), 3);
    assert_eq!(OperationMode::Normal.code(), 1);
}

#[test]
fn refused_answers_are_repeated_in_order() {
    let mut latch = Latch::default();
    latch.absorb(Event::ReqBackupData);
    let (mut s, mut latch) = Service::service_requests(latch);
    let mut sent = Vec::new();
    let mut refusals = 3;
    // A request for orbit data comes in while the first answer is refused.
    let mut inbound = VecDeque::from(vec![Some([0x1000_0000, 5 << 8]), None, None]);
    while let Some(a) = s.action() {
        let reply = match a {
            Action::SetRetval(v) => {
                sent.push((v as u32, 0));
                Reply::Done
            }
            Action::Push(w) if refusals == 0 => {
                sent.push((w[0], w[1]));
                Reply::Pushed(true)
            }
            Action::Push(_) => {
                refusals -= 1;
                Reply::Pushed(false)
            }
            Action::PopMsg => Reply::Words(inbound.pop_front().unwrap_or(None)),
            _ => Reply::Done,
        };
        (s, latch) = s.step(latch, reply);
    }
    assert!(matches!(s, Service::Finished));
    assert!(!latch.req_backup && !latch.req_cep);
    let none = -2i32 as u32;
    assert_eq!(sent, vec![(none, 0), (0x1d0a_0000, 0), (none, 0), (0x1d08_0000, 0)]);
}
