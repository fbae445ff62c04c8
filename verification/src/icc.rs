//! Inter-core communication: the wire format of the CPU FIFO, and the primitive operations that a
//! driver asks for while it talks to another core.
//!
//! A message is two words. Word 0 is `[31:28] cpuid | [27:24] proto | [23:16] msgid | [15:0] pdata`
//! and word 1 is free.

use vstd::prelude::*;

use crate::farapi::FarMsg;

verus! {

/// Notifications from another core's firmware.
pub const PROTO_MSG: u32 = 0;

/// Requests that hand over the address of a message block.
pub const PROTO_MBX: u32 = 1;

/// Event flags, among them the completion of a remote call.
pub const PROTO_FLG: u32 = 3;

/// Signal commands to the positioning firmware.
pub const PROTO_GNSS: u32 = 13;

/// The typed message channel between the cores of one application.
pub const PROTO_USER: u32 = 14;

/// The routing nibble of a word 0: the destination when sent, the sender when received.
pub open spec fn cpu_of(w0: u32) -> int {
    w0 as int / 0x1000_0000
}

/// The protocol nibble of a word 0.
pub open spec fn proto_of(w0: u32) -> int {
    (w0 as int / 0x100_0000) % 16
}

/// The message id byte of a word 0.
pub open spec fn msgid_of(w0: u32) -> int {
    (w0 as int / 0x1_0000) % 256
}

/// The low half of a word 0.
pub open spec fn pdata_of(w0: u32) -> int {
    w0 as int % 0x1_0000
}

/// The number that has the given fields as a word 0.
pub open spec fn word0(cpu: int, proto: int, msgid: int, pdata: int) -> int {
    cpu * 0x1000_0000 + proto * 0x100_0000 + msgid * 0x1_0000 + pdata
}

/// Shifting and masking a word 0 reads its fields.
pub proof fn lemma_fields(w: u32)
    ensures
        (w >> 28) & 0xf == cpu_of(w),
        (w >> 24) & 0xf == proto_of(w),
        (w >> 16) & 0xff == msgid_of(w),
        w & 0xffff == pdata_of(w),
        w & 0xff == w as int % 256,
        w & 0xf == w as int % 16,
        w & 0xff00 == (w as int / 256) % 256 * 256,
{
    assert((w >> 28) & 0xf == w / 0x1000_0000 && (w >> 24) & 0xf == (w / 0x100_0000) % 16 && (w
        >> 16) & 0xff == (w / 0x1_0000) % 256 && w & 0xffff == w % 0x1_0000 && w & 0xff == w % 256
        && w & 0xf == w % 16 && w & 0xff00 == (w / 256) % 256 * 256) by (bit_vector);
}

/// Masking, shifting and joining four fields makes the word 0 that has them.
pub proof fn lemma_pack(cpu: u32, proto: u32, msgid: u32, pdata: u32)
    ensures
        ((cpu & 0xf) << 28) | ((proto & 0xf) << 24) | ((msgid & 0xff) << 16) | (pdata & 0xffff)
            == word0(
            cpu as int % 16,
            proto as int % 16,
            msgid as int % 256,
            pdata as int % 0x1_0000,
        ),
{
    assert(((cpu & 0xf) << 28) | ((proto & 0xf) << 24) | ((msgid & 0xff) << 16) | (pdata & 0xffff)
        == (cpu % 16) * 0x1000_0000 + (proto % 16) * 0x100_0000 + (msgid % 256) * 0x1_0000 + pdata
        % 0x1_0000) by (bit_vector);
}

/// A word 0 is determined by its four fields, and its fields are the ones it was made of.
pub proof fn law_word0_fields(w: u32, cpu: int, proto: int, msgid: int, pdata: int)
    requires
        0 <= cpu < 16,
        0 <= proto < 16,
        0 <= msgid < 256,
        0 <= pdata < 0x1_0000,
    ensures
        w == word0(cpu, proto, msgid, pdata) <==> (cpu_of(w) == cpu && proto_of(w) == proto
            && msgid_of(w) == msgid && pdata_of(w) == pdata),
{
}

/// Packs a word 0, keeping of each field the bits that fit.
pub fn pack_word0(dest_cpuid: u32, proto: u32, msgid: u32, pdata: u32) -> (w: u32)
    ensures
        w == word0(
            dest_cpuid as int % 16,
            proto as int % 16,
            msgid as int % 256,
            pdata as int % 0x1_0000,
        ),
{
    proof {
        lemma_pack(dest_cpuid, proto, msgid, pdata);
    }
    ((dest_cpuid & 0xf) << 28) | ((proto & 0xf) << 24) | ((msgid & 0xff) << 16) | (pdata & 0xffff)
}

/// One primitive operation that a driver asks its caller to perform. The comment on each names the
/// [`Reply`] that answers it; any other reply leaves the driver where it was.
#[derive(Clone, Copy, Debug)]
pub enum Action {
    /// Place an argument buffer in memory that outlives the call: [`Reply::Staged`].
    Stage([u32; 4]),
    /// Read the first word of the argument buffer back: [`Reply::Word`].
    ReadArg,
    /// Place a message block in memory that outlives the call: [`Reply::Address`].
    Publish(FarMsg),
    /// Order the memory accesses before against those after: [`Reply::Done`].
    Barrier,
    /// Try once to push a message on the CPU FIFO: [`Reply::Pushed`].
    Push([u32; 2]),
    /// Move whatever the CPU FIFO received into the sinks of its protocols: [`Reply::Done`].
    DrainRx,
    /// Take the oldest event-flag message, if there is one: [`Reply::Words`].
    PopFlg,
    /// Take the oldest notification, if there is one: [`Reply::Words`].
    PopMsg,
    /// Read the real-time clock's counters: [`Reply::Rtc`].
    ReadRtc,
    /// Store a return value in the block that the firmware reads, then order that store before
    /// what follows: [`Reply::Done`].
    SetRetval(i32),
    /// Switch a load-switch channel of the power controller: [`Reply::Switched`].
    SetLoadswitch { channel: u8, on: bool },
}

/// The answer to an [`Action`].
#[derive(Clone, Copy, Debug)]
pub enum Reply {
    /// The operation is done, and has nothing to report.
    Done,
    /// The argument buffer stands at `arg`, and `cpuid` is the raw id of the calling core.
    Staged { cpuid: u8, arg: u32 },
    /// The word that was read.
    Word(u32),
    /// Where the message block stands.
    Address(u32),
    /// Whether the FIFO took the message.
    Pushed(bool),
    /// The message that was taken, if there was one.
    Words(Option<[u32; 2]>),
    /// The post-counter, the pre-counter, and the post-counter again, read in this order.
    Rtc { hi: u32, lo: u32, again: u32 },
    /// Whether the power controller confirmed the switch in time.
    Switched(bool),
}

/// Where the fields of a word 0 stand: the routing nibble in bits 28 to 31, the protocol in bits 24
/// to 27, the message id in bits 16 to 23, and the rest below.
pub proof fn law_word0_layout(w: u32, cpu: int, proto: int, msgid: int, pdata: int)
    requires
        0 <= cpu < 16,
        0 <= proto < 16,
        0 <= msgid < 256,
        0 <= pdata < 65_536,
    ensures
        cpu_of(w) == w as int / 268_435_456,
        proto_of(w) == w as int / 16_777_216 % 16,
        msgid_of(w) == w as int / 65_536 % 256,
        pdata_of(w) == w as int % 65_536,
        word0(cpu, proto, msgid, pdata) / 268_435_456 == cpu,
        word0(cpu, proto, msgid, pdata) / 16_777_216 % 16 == proto,
        word0(cpu, proto, msgid, pdata) / 65_536 % 256 == msgid,
        word0(cpu, proto, msgid, pdata) % 65_536 == pdata,
{
}

/// Whether a reply is of the kind that answers an action.
pub open spec fn answers(a: Option<Action>, reply: Reply) -> bool {
    match a {
        Some(Action::Stage(_)) => reply is Staged,
        Some(Action::ReadArg) => reply is Word,
        Some(Action::Publish(_)) => reply is Address,
        Some(Action::Barrier) | Some(Action::DrainRx) | Some(Action::SetRetval(_)) => reply is Done,
        Some(Action::Push(_)) => reply is Pushed,
        Some(Action::PopFlg) | Some(Action::PopMsg) => reply is Words,
        Some(Action::ReadRtc) => reply is Rtc,
        Some(Action::SetLoadswitch { .. }) => reply is Switched,
        None => false,
    }
}

} // verus!
