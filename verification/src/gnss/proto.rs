//! Signal messages between the application and the positioning firmware: everything that is not a
//! remote call.
//!
//! The firmware notifies with protocol 0, and puts a device byte and a signed value in word 1. The
//! application commands with protocol 13, and puts the signal type in the message id of word 0.

use vstd::prelude::*;

use crate::icc;
use crate::icc::{PROTO_GNSS, PROTO_MSG};

verus! {

/// The core that runs the positioning firmware.
pub const CPU_GPS: u32 = 1;

/// Positioning data and notifications.
pub const DEV_GNSS: u32 = 0;

/// The block in which the application reports return values.
pub const DEV_INFO: u32 = 6;

/// Orbit prediction data.
pub const DEV_CEP: u32 = 8;

/// Stored backup data.
pub const DEV_BKUPFILE: u32 = 10;

/// Start and stop commands, and their acknowledgement.
pub const DEV_CPUFIFOAPI: u32 = 13;

/// The command byte of a start.
pub const CPUFIFOAPI_START: u32 = 0;

/// The command byte of a stop.
pub const CPUFIFOAPI_STOP: u32 = 1;

/// One positioning epoch is ready.
pub const NOTIFY_POSITION: i32 = 0;

/// Initialization is over.
pub const NOTIFY_BOOTCOMP: i32 = 1;

/// Backup data is asked for.
pub const NOTIFY_REQBKUPDAT: i32 = 2;

/// The orbit prediction file is to be opened.
pub const NOTIFY_REQCEPOPEN: i32 = 3;

/// The orbit prediction file is to be closed.
pub const NOTIFY_REQCEPCLOSE: i32 = 4;

/// Orbit prediction data is asked for.
pub const NOTIFY_REQCEPDAT: i32 = 5;

/// The orbit prediction buffer is free.
pub const NOTIFY_REQCEPBUFFREE: i32 = 6;

/// What an inbound message means.
#[derive(Clone, Copy, Debug, PartialEq, Eq, Structural)]
pub enum Event {
    /// One positioning epoch is ready.
    Position,
    /// The firmware finished initializing.
    BootComp,
    /// The firmware asks for stored backup data.
    ReqBackupData,
    /// The firmware asks for orbit prediction data.
    ReqCepData,
    /// The firmware opens, closes or frees its orbit prediction file: nothing to do without one.
    CepHousekeeping,
    /// A start or stop command was acknowledged with this return code.
    CpuFifoApiRet(i32),
    /// Anything else.
    Other,
}

/// The value of a word, read as a signed number.
pub open spec fn signed(w: u32) -> int {
    if w >= 0x8000_0000 {
        w - 0x1_0000_0000
    } else {
        w as int
    }
}

/// What the message `w` means: a notification comes from the positioning core under protocol 0,
/// its device is the low byte of word 1, and its value is the signed rest.
pub open spec fn meaning(w: [u32; 2]) -> Event {
    let dev = w[1] as int % 256;
    let value = signed(w[1]) / 256;
    if icc::proto_of(w[0]) != PROTO_MSG || icc::cpu_of(w[0]) != CPU_GPS {
        Event::Other
    } else if dev == DEV_CPUFIFOAPI {
        Event::CpuFifoApiRet(value as i32)
    } else if dev != DEV_GNSS {
        Event::Other
    } else if value == NOTIFY_POSITION {
        Event::Position
    } else if value == NOTIFY_BOOTCOMP {
        Event::BootComp
    } else if value == NOTIFY_REQBKUPDAT {
        Event::ReqBackupData
    } else if value == NOTIFY_REQCEPDAT {
        Event::ReqCepData
    } else if value == NOTIFY_REQCEPOPEN || value == NOTIFY_REQCEPCLOSE || value
        == NOTIFY_REQCEPBUFFREE {
        Event::CepHousekeeping
    } else {
        Event::Other
    }
}

/// The words of a signal of type `sigtype`.
pub open spec fn signal(sigtype: u32, data: u32) -> [u32; 2] {
    [icc::word0(CPU_GPS as int, PROTO_GNSS as int, sigtype as int % 256, 0) as u32, data]
}

/// A word read as a signed number.
pub fn as_signed(w: u32) -> (i: i32)
    ensures
        i == signed(w),
{
    let i: i32 = #[verifier::truncate] (w as i32);
    proof {
        assert(i == if w >= 0x8000_0000 {
            w - 0x1_0000_0000
        } else {
            w + 0
        }) by (bit_vector)
            requires
                i == w as i32,
        ;
    }
    i
}

/// Tells what an inbound message means.
pub fn classify(w: [u32; 2]) -> (ev: Event)
    ensures
        ev == meaning(w),
{
    let w0: u32 = w[0];
    let w1: u32 = w[1];
    let whole: i32 = as_signed(w1);
    proof {
        icc::lemma_fields(w0);
        icc::lemma_fields(w1);
        assert(whole >> 8 == whole as int / 256) by (bit_vector);
    }
    let sender: u32 = (w0 >> 28) & 0xf;
    let protocol: u32 = (w0 >> 24) & 0xf;
    if protocol != PROTO_MSG || sender != CPU_GPS {
        return Event::Other;
    }
    let dev: u32 = w1 & 0xff;
    let value: i32 = whole >> 8;
    if dev == DEV_GNSS {
        if value == NOTIFY_POSITION {
            Event::Position
        } else if value == NOTIFY_BOOTCOMP {
            Event::BootComp
        } else if value == NOTIFY_REQBKUPDAT {
            Event::ReqBackupData
        } else if value == NOTIFY_REQCEPDAT {
            Event::ReqCepData
        } else if value == NOTIFY_REQCEPOPEN || value == NOTIFY_REQCEPCLOSE || value
            == NOTIFY_REQCEPBUFFREE {
            Event::CepHousekeeping
        } else {
            Event::Other
        }
    } else if dev == DEV_CPUFIFOAPI {
        Event::CpuFifoApiRet(value)
    } else {
        Event::Other
    }
}

/// Builds a signal for the positioning firmware.
pub fn sig_words(sigtype: u32, data: u32) -> (w: [u32; 2])
    ensures
        w == signal(sigtype, data),
{
    proof {
        icc::lemma_pack(CPU_GPS, PROTO_GNSS, sigtype, 0);
        assert(CPU_GPS & 0xf == CPU_GPS && PROTO_GNSS & 0xf == PROTO_GNSS && 0u32 & 0xffff == 0)
            by (bit_vector);
        let s = sigtype & 0xff;
        assert((1u32 << 28) | (13u32 << 24) | (s << 16) == ((1u32 << 28) | (13u32 << 24) | (s
            << 16) | 0u32)) by (bit_vector);
    }
    [(CPU_GPS << 28) | (PROTO_GNSS << 24) | ((sigtype & 0xff) << 16), data]
}

/// A return code of at most 24 bits arrives as it was sent.
pub proof fn law_ack_carries_return_code(w0: u32, code: i32, w1: u32)
    requires
        icc::proto_of(w0) == PROTO_MSG,
        icc::cpu_of(w0) == CPU_GPS,
        -0x80_0000 <= code < 0x80_0000,
        signed(w1) == code * 256 + DEV_CPUFIFOAPI,
    ensures
        meaning([w0, w1]) == Event::CpuFifoApiRet(code),
{
    let words = [w0, w1];
    assert(words[0] == w0 && words[1] == w1);
}

/// What the application sends is never taken for a notification.
pub proof fn law_signals_are_not_notifications(sigtype: u32, data: u32)
    ensures
        meaning(signal(sigtype, data)) == Event::Other,
        icc::cpu_of(signal(sigtype, data)[0]) == CPU_GPS,
        icc::msgid_of(signal(sigtype, data)[0]) == sigtype % 256,
{
}

/// What each notification looks like. It comes from core 1 under protocol 0. Word 1 is 0 for an
/// epoch, and 256 times a number for the others; an acknowledgement has 13 in its lowest byte and
/// its return code, with its sign, above.
pub proof fn law_notifications(w: [u32; 2], code: i32)
    ensures
        ({
            let from_gps = w[0] as int / 268_435_456 == 1 && w[0] as int / 16_777_216 % 16 == 0;
            let value = if w[1] >= 0x8000_0000 {
                w[1] - 0x1_0000_0000
            } else {
                w[1] as int
            };
            &&& meaning(w) == Event::Position <==> from_gps && w[1] == 0
            &&& meaning(w) == Event::BootComp <==> from_gps && w[1] == 0x100
            &&& meaning(w) == Event::ReqBackupData <==> from_gps && w[1] == 0x200
            &&& meaning(w) == Event::ReqCepData <==> from_gps && w[1] == 0x500
            &&& meaning(w) == Event::CepHousekeeping <==> from_gps && (w[1] == 0x300 || w[1] == 0x400
                || w[1] == 0x600)
            &&& meaning(w) == Event::CpuFifoApiRet(code) <==> from_gps && value == 256 * code + 13
        }),
{
}

/// A signal goes to core 1 under protocol 13, with its type in the message id and its payload in
/// word 1.
pub proof fn law_signal_layout(sigtype: u32, data: u32)
    ensures
        signal(sigtype, data)[0] == 0x1d00_0000 + 65_536 * (sigtype as int % 256),
        signal(sigtype, data)[1] == data,
{
}

/// A word is read as the number that has it as its low 32 bits.
pub proof fn law_signed_words(w: u32)
    ensures
        (signed(w) - w) % 0x1_0000_0000 == 0,
        -0x8000_0000 <= signed(w) < 0x8000_0000,
{
}

} // verus!
