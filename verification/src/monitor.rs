//! The serial monitor: what is done with the board's output.
//!
//! Firmware that was linked for defmt sends binary frames, which are decoded against its ELF; any
//! other output is passed on as it is. Which of the two it is, the ELF tells ([`select`]).
//! [`DefmtMonitor`] and [`RawMonitor`] are the two ways as sequences of operations on the port and
//! on the terminal; both go on until the port or the terminal fails.

use vstd::prelude::*;
use vstd::string::*;

use defmt_decoder::Table;

verus! {

/// The rate of the board's console.
pub const MONITOR_BAUD: u32 = 115_200;

/// How long one read of the port may wait, in milliseconds.
pub const READ_TIMEOUT_MS: u64 = 100;

/// The bytes that one read of the port takes at most.
pub const READ_SIZE: usize = 1024;

/// The format strings of a firmware, as the decoder keeps them.
#[verifier::external_type_specification]
#[verifier::external_body]
pub struct ExTable(Table);

/// What the entries of a table hold: for the index of each, its format string and the symbol that
/// it came from, which also gives the level.
pub uninterp spec fn entries_of(table: Table) -> Map<int, (Seq<char>, Seq<char>)>;

/// The format string of a table's timestamp, if it has one.
pub uninterp spec fn timestamp_of(table: Table) -> Option<Seq<char>>;

/// The flags that a table knows: for the name, package, disambiguator and crate of each type of
/// flags, the names and values of its flags in order.
pub uninterp spec fn flags_of(table: Table) -> Map<
    (Seq<char>, Seq<char>, Seq<char>, Option<Seq<char>>),
    Seq<(Seq<char>, u128)>,
>;

/// What [`Table::parse`] finds in an ELF on a host whose addresses have `bits` bits, where it
/// succeeds: no table, or one whose framing finds its way back after bytes that are not a frame or
/// does not, and which has these entries, this timestamp and these flags.
pub uninterp spec fn table_in(elf: Seq<u8>, bits: int) -> Option<
    (
        bool,
        Map<int, (Seq<char>, Seq<char>)>,
        Option<Seq<char>>,
        Map<(Seq<char>, Seq<char>, Seq<char>, Option<Seq<char>>), Seq<(Seq<char>, u128)>>,
    ),
>;

/// Calls [`defmt_decoder::Table::parse`], and asks the encoding of the table that it finds whether
/// it can recover. Where the call succeeds, whether there is a table, whether its encoding can
/// recover, and what the table holds are determined by the bytes of the ELF and by the width of the
/// host's addresses, to which the indices are cut. When it fails, and with which message, is not
/// said: the reader of the ELF also refuses bytes that do not stand aligned in memory.
#[verifier::external_body]
fn parse_table(elf: &[u8]) -> (r: Result<Option<(Table, bool)>, String>)
    ensures
        match r {
            Ok(Some((table, recoverable))) => table_in(elf@, usize::BITS as int) == Some(
                (recoverable, entries_of(table), timestamp_of(table), flags_of(table)),
            ),
            Ok(None) => table_in(elf@, usize::BITS as int) is None,
            Err(_) => true,
        },
{
    match Table::parse(elf) {
        Ok(Some(table)) => {
            let recoverable = table.encoding().can_recover();
            Ok(Some((table, recoverable)))
        },
        Ok(None) => Ok(None),
        Err(e) => Err(e.to_string()),
    }
}

/// How the board's output is to be treated.
pub enum Mode {
    /// It is decoded against this table.
    Defmt { table: Table, recoverable: bool },
    /// It is passed on.
    Raw,
}

/// The message of an ELF that cannot be parsed.
pub open spec fn parse_failure(elf_path: Seq<char>, message: Seq<char>) -> Seq<char> {
    "parsing defmt data from "@ + elf_path + ": "@ + message
}

/// Writes out the message of an ELF that cannot be parsed.
pub fn describe_parse_failure(elf_path: &str, message: &str) -> (s: String)
    ensures
        s@ == parse_failure(elf_path@, message@),
{
    let mut s = String::from_str("parsing defmt data from ");
    s.append(elf_path);
    s.append(": ");
    s.append(message);
    s
}

/// Tells from an ELF how the output of the firmware is to be treated. An ELF without defmt data
/// means raw output; one with defmt data means output that is decoded against the table in it; one
/// that cannot be parsed is an error.
pub fn select(elf_path: &str, elf: &[u8]) -> (r: Result<Mode, String>)
    ensures
        match r {
            Ok(Mode::Defmt { table, recoverable }) => table_in(elf@, usize::BITS as int) == Some(
                (recoverable, entries_of(table), timestamp_of(table), flags_of(table)),
            ),
            Ok(Mode::Raw) => table_in(elf@, usize::BITS as int) is None,
            Err(text) => exists|message: Seq<char>|
                text@ == #[trigger] parse_failure(elf_path@, message),
        },
{
    mode_or_failure(elf_path, parse_table(elf))
}

/// How output is to be treated, given what came of parsing the ELF at `elf_path`.
pub fn mode_or_failure(elf_path: &str, parsed: Result<Option<(Table, bool)>, String>) -> (r: Result<
    Mode,
    String,
>)
    ensures
        match (parsed, r) {
            (Ok(Some((t, can_recover))), Ok(Mode::Defmt { table, recoverable })) => table == t
                && recoverable == can_recover,
            (Ok(None), Ok(Mode::Raw)) => true,
            (Err(message), Err(text)) => text@ == parse_failure(elf_path@, message@),
            _ => false,
        },
{
    match parsed {
        Ok(Some((table, recoverable))) => Ok(Mode::Defmt { table, recoverable }),
        Ok(None) => Ok(Mode::Raw),
        Err(message) => Err(describe_parse_failure(elf_path, message.as_str())),
    }
}

/// The level of a message.
#[derive(Clone, Copy, Debug, PartialEq, Eq, Structural)]
pub enum Level {
    Trace,
    Debug,
    Info,
    Warn,
    Error,
}

impl Level {
    /// The name of the level.
    pub open spec fn spec_name(self) -> Seq<char> {
        match self {
            Level::Trace => "Trace"@,
            Level::Debug => "Debug"@,
            Level::Info => "Info"@,
            Level::Warn => "Warn"@,
            Level::Error => "Error"@,
        }
    }

    /// The name of the level.
    pub fn name(self) -> (s: &'static str)
        ensures
            s@ == self.spec_name(),
    {
        match self {
            Level::Trace => "Trace",
            Level::Debug => "Debug",
            Level::Info => "Info",
            Level::Warn => "Warn",
            Level::Error => "Error",
        }
    }
}

/// The line that stands for a message: its level in brackets, if it has one, and its text.
pub open spec fn line(level: Option<Level>, message: Seq<char>) -> Seq<char> {
    match level {
        Some(l) => "["@ + l.spec_name() + "] "@ + message,
        None => message,
    }
}

/// Writes out the line that stands for a message, without its end.
pub fn render(level: Option<Level>, message: &str) -> (s: String)
    ensures
        s@ == line(level, message@),
{
    match level {
        Some(l) => {
            let mut s = String::from_str("[");
            s.append(l.name());
            s.append("] ");
            s.append(message);
            s
        },
        None => String::from_str(message),
    }
}

/// What came of a read of the port.
#[derive(Clone, Copy, Debug, PartialEq, Eq, Structural)]
pub enum ReadOutcome {
    /// This many bytes.
    Bytes(usize),
    /// Nothing in time.
    TimedOut,
    /// Nothing yet.
    WouldBlock,
    /// The port failed.
    Failed,
}

/// What came of an attempt to decode a frame.
#[derive(Clone, Copy, Debug, PartialEq, Eq, Structural)]
pub enum DecodeOutcome {
    /// A frame of this level.
    Frame(Option<Level>),
    /// There is no whole frame.
    UnexpectedEof,
    /// What there is, is not a frame.
    Malformed,
}

/// What a monitor asks for next. The comment on each names the [`MonitorReply`] that answers it.
#[derive(Clone, Copy, Debug, PartialEq, Eq, Structural)]
pub enum MonitorAction {
    /// Set the line that resets the board, if that works: [`MonitorReply::Done`].
    SetDtr(bool),
    /// Read the port: [`MonitorReply::Read`].
    Read,
    /// Hand this many bytes to the decoder: [`MonitorReply::Done`].
    Feed(usize),
    /// Decode a frame: [`MonitorReply::Decoded`].
    Decode,
    /// Write the line of the frame: [`MonitorReply::Done`] or [`MonitorReply::OutputFailed`].
    WriteFrame(Option<Level>),
    /// Write this many bytes as they are: [`MonitorReply::Done`] or
    /// [`MonitorReply::OutputFailed`].
    WriteBytes(usize),
    /// Make what was written visible: [`MonitorReply::Done`] or [`MonitorReply::OutputFailed`].
    Flush,
}

/// The answer to a [`MonitorAction`].
#[derive(Clone, Copy, Debug, PartialEq, Eq, Structural)]
pub enum MonitorReply {
    Done,
    Read(ReadOutcome),
    Decoded(DecodeOutcome),
    OutputFailed,
}

/// Why a monitor ended.
#[derive(Clone, Copy, Debug, PartialEq, Eq, Structural)]
pub enum Failure {
    /// The port failed.
    Port,
    /// The terminal failed.
    Output,
    /// There was something that is not a frame, and the framing cannot find its way back. The
    /// firmware on the board is probably not the one of the ELF.
    Malformed,
}

/// Where the monitor of defmt output stands.
#[derive(Clone, Copy, Debug, PartialEq, Eq, Structural)]
pub enum DefmtPhase {
    /// The board is reset, so that its first frames are not missed.
    DtrLow,
    DtrHigh,
    DtrLowAgain,
    Reading,
    Feeding(usize),
    Decoding,
    Writing(Option<Level>),
    Flushing,
    Failed(Failure),
}

/// The monitor of defmt output.
#[derive(Clone, Copy, Debug, PartialEq, Eq, Structural)]
pub struct DefmtMonitor {
    /// Whether the framing finds its way back after what is not a frame.
    pub recoverable: bool,
    pub phase: DefmtPhase,
}

impl DefmtMonitor {
    pub open spec fn at(self, phase: DefmtPhase) -> DefmtMonitor {
        DefmtMonitor { phase, ..self }
    }

    pub open spec fn wants(self) -> Option<MonitorAction> {
        match self.phase {
            DefmtPhase::DtrLow => Some(MonitorAction::SetDtr(false)),
            DefmtPhase::DtrHigh => Some(MonitorAction::SetDtr(true)),
            DefmtPhase::DtrLowAgain => Some(MonitorAction::SetDtr(false)),
            DefmtPhase::Reading => Some(MonitorAction::Read),
            DefmtPhase::Feeding(n) => Some(MonitorAction::Feed(n)),
            DefmtPhase::Decoding => Some(MonitorAction::Decode),
            DefmtPhase::Writing(level) => Some(MonitorAction::WriteFrame(level)),
            DefmtPhase::Flushing => Some(MonitorAction::Flush),
            DefmtPhase::Failed(_) => None,
        }
    }

    pub open spec fn next(self, reply: MonitorReply) -> DefmtMonitor {
        match (self.phase, reply) {
            (DefmtPhase::DtrLow, MonitorReply::Done) => self.at(DefmtPhase::DtrHigh),
            (DefmtPhase::DtrHigh, MonitorReply::Done) => self.at(DefmtPhase::DtrLowAgain),
            (DefmtPhase::DtrLowAgain, MonitorReply::Done) => self.at(DefmtPhase::Reading),
            (DefmtPhase::Reading, MonitorReply::Read(outcome)) => match outcome {
                ReadOutcome::Bytes(n) => if n == 0 {
                    self
                } else {
                    self.at(DefmtPhase::Feeding(n))
                },
                ReadOutcome::TimedOut | ReadOutcome::WouldBlock => self,
                ReadOutcome::Failed => self.at(DefmtPhase::Failed(Failure::Port)),
            },
            (DefmtPhase::Feeding(_), MonitorReply::Done) => self.at(DefmtPhase::Decoding),
            (DefmtPhase::Decoding, MonitorReply::Decoded(outcome)) => match outcome {
                DecodeOutcome::Frame(level) => self.at(DefmtPhase::Writing(level)),
                DecodeOutcome::UnexpectedEof => self.at(DefmtPhase::Reading),
                DecodeOutcome::Malformed => if self.recoverable {
                    self
                } else {
                    self.at(DefmtPhase::Failed(Failure::Malformed))
                },
            },
            (DefmtPhase::Writing(_), MonitorReply::Done) => self.at(DefmtPhase::Flushing),
            (DefmtPhase::Flushing, MonitorReply::Done) => self.at(DefmtPhase::Decoding),
            (DefmtPhase::Writing(_), MonitorReply::OutputFailed)
            | (DefmtPhase::Flushing, MonitorReply::OutputFailed) => self.at(
                DefmtPhase::Failed(Failure::Output),
            ),
            _ => self,
        }
    }

    /// Starts the monitor of defmt output.
    pub fn run_defmt(recoverable: bool) -> (m: DefmtMonitor)
        ensures
            m == (DefmtMonitor { recoverable, phase: DefmtPhase::DtrLow }),
    {
        DefmtMonitor { recoverable, phase: DefmtPhase::DtrLow }
    }

    /// What to do next, or `None` once the monitor failed.
    pub fn action(&self) -> (a: Option<MonitorAction>)
        ensures
            a == self.wants(),
    {
        match self.phase {
            DefmtPhase::DtrLow => Some(MonitorAction::SetDtr(false)),
            DefmtPhase::DtrHigh => Some(MonitorAction::SetDtr(true)),
            DefmtPhase::DtrLowAgain => Some(MonitorAction::SetDtr(false)),
            DefmtPhase::Reading => Some(MonitorAction::Read),
            DefmtPhase::Feeding(n) => Some(MonitorAction::Feed(n)),
            DefmtPhase::Decoding => Some(MonitorAction::Decode),
            DefmtPhase::Writing(level) => Some(MonitorAction::WriteFrame(level)),
            DefmtPhase::Flushing => Some(MonitorAction::Flush),
            DefmtPhase::Failed(_) => None,
        }
    }

    /// Takes the reply to the last action.
    pub fn step(self, reply: MonitorReply) -> (r: DefmtMonitor)
        ensures
            r == self.next(reply),
    {
        let phase = match (self.phase, reply) {
            (DefmtPhase::DtrLow, MonitorReply::Done) => DefmtPhase::DtrHigh,
            (DefmtPhase::DtrHigh, MonitorReply::Done) => DefmtPhase::DtrLowAgain,
            (DefmtPhase::DtrLowAgain, MonitorReply::Done) => DefmtPhase::Reading,
            (DefmtPhase::Reading, MonitorReply::Read(outcome)) => match outcome {
                ReadOutcome::Bytes(n) => if n == 0 {
                    DefmtPhase::Reading
                } else {
                    DefmtPhase::Feeding(n)
                },
                ReadOutcome::TimedOut | ReadOutcome::WouldBlock => DefmtPhase::Reading,
                ReadOutcome::Failed => DefmtPhase::Failed(Failure::Port),
            },
            (DefmtPhase::Feeding(_), MonitorReply::Done) => DefmtPhase::Decoding,
            (DefmtPhase::Decoding, MonitorReply::Decoded(outcome)) => match outcome {
                DecodeOutcome::Frame(level) => DefmtPhase::Writing(level),
                DecodeOutcome::UnexpectedEof => DefmtPhase::Reading,
                DecodeOutcome::Malformed => if self.recoverable {
                    DefmtPhase::Decoding
                } else {
                    DefmtPhase::Failed(Failure::Malformed)
                },
            },
            (DefmtPhase::Writing(_), MonitorReply::Done) => DefmtPhase::Flushing,
            (DefmtPhase::Flushing, MonitorReply::Done) => DefmtPhase::Decoding,
            (DefmtPhase::Writing(_), MonitorReply::OutputFailed)
            | (DefmtPhase::Flushing, MonitorReply::OutputFailed) => DefmtPhase::Failed(
                Failure::Output,
            ),
            _ => self.phase,
        };
        DefmtMonitor { phase, ..self }
    }

    /// Why the monitor ended, or `None` while it runs.
    pub fn failure(&self) -> (f: Option<Failure>)
        ensures
            f == match self.phase {
                DefmtPhase::Failed(f) => Some(f),
                _ => None,
            },
    {
        match self.phase {
            DefmtPhase::Failed(f) => Some(f),
            _ => None,
        }
    }
}

/// Where the monitor of raw output stands.
#[derive(Clone, Copy, Debug, PartialEq, Eq, Structural)]
pub enum RawMonitor {
    Reading,
    Writing(usize),
    Flushing,
    Failed(Failure),
}

impl RawMonitor {
    pub open spec fn wants(self) -> Option<MonitorAction> {
        match self {
            RawMonitor::Reading => Some(MonitorAction::Read),
            RawMonitor::Writing(n) => Some(MonitorAction::WriteBytes(n)),
            RawMonitor::Flushing => Some(MonitorAction::Flush),
            RawMonitor::Failed(_) => None,
        }
    }

    pub open spec fn next(self, reply: MonitorReply) -> RawMonitor {
        match (self, reply) {
            (RawMonitor::Reading, MonitorReply::Read(outcome)) => match outcome {
                ReadOutcome::Bytes(n) => if n == 0 {
                    self
                } else {
                    RawMonitor::Writing(n)
                },
                ReadOutcome::TimedOut | ReadOutcome::WouldBlock => self,
                ReadOutcome::Failed => RawMonitor::Failed(Failure::Port),
            },
            (RawMonitor::Writing(_), MonitorReply::Done) => RawMonitor::Flushing,
            (RawMonitor::Flushing, MonitorReply::Done) => RawMonitor::Reading,
            (RawMonitor::Writing(_), MonitorReply::OutputFailed)
            | (RawMonitor::Flushing, MonitorReply::OutputFailed) => RawMonitor::Failed(
                Failure::Output,
            ),
            _ => self,
        }
    }

    /// Starts the monitor of raw output.
    pub fn run_raw() -> (m: RawMonitor)
        ensures
            m == RawMonitor::Reading,
    {
        RawMonitor::Reading
    }

    /// What to do next, or `None` once the monitor failed.
    pub fn action(&self) -> (a: Option<MonitorAction>)
        ensures
            a == self.wants(),
    {
        match self {
            RawMonitor::Reading => Some(MonitorAction::Read),
            RawMonitor::Writing(n) => Some(MonitorAction::WriteBytes(*n)),
            RawMonitor::Flushing => Some(MonitorAction::Flush),
            RawMonitor::Failed(_) => None,
        }
    }

    /// Takes the reply to the last action.
    pub fn step(self, reply: MonitorReply) -> (r: RawMonitor)
        ensures
            r == self.next(reply),
    {
        match (self, reply) {
            (RawMonitor::Reading, MonitorReply::Read(outcome)) => match outcome {
                ReadOutcome::Bytes(n) => if n == 0 {
                    self
                } else {
                    RawMonitor::Writing(n)
                },
                ReadOutcome::TimedOut | ReadOutcome::WouldBlock => self,
                ReadOutcome::Failed => RawMonitor::Failed(Failure::Port),
            },
            (RawMonitor::Writing(_), MonitorReply::Done) => RawMonitor::Flushing,
            (RawMonitor::Flushing, MonitorReply::Done) => RawMonitor::Reading,
            (RawMonitor::Writing(_), MonitorReply::OutputFailed)
            | (RawMonitor::Flushing, MonitorReply::OutputFailed) => RawMonitor::Failed(
                Failure::Output,
            ),
            _ => self,
        }
    }

    /// Why the monitor ended, or `None` while it runs.
    pub fn failure(&self) -> (f: Option<Failure>)
        ensures
            f == match self {
                RawMonitor::Failed(f) => Some(*f),
                _ => None,
            },
    {
        match self {
            RawMonitor::Failed(f) => Some(*f),
            _ => None,
        }
    }
}

/// The board is reset by a low, a high and a low, before anything is read.
pub proof fn law_board_is_reset_first(recoverable: bool)
    ensures
        ({
            let m0 = DefmtMonitor { recoverable, phase: DefmtPhase::DtrLow };
            let m1 = m0.next(MonitorReply::Done);
            let m2 = m1.next(MonitorReply::Done);
            let m3 = m2.next(MonitorReply::Done);
            &&& m0.wants() == Some(MonitorAction::SetDtr(false))
            &&& m1.wants() == Some(MonitorAction::SetDtr(true))
            &&& m2.wants() == Some(MonitorAction::SetDtr(false))
            &&& m3.wants() == Some(MonitorAction::Read)
        }),
{
}

/// Whatever is read is handed on: every byte to the decoder before the next read, every frame to
/// the terminal, visibly, before the next frame, and every raw byte to the terminal, visibly,
/// before the next read.
pub proof fn law_nothing_is_dropped(m: DefmtMonitor, n: usize, level: Option<Level>)
    requires
        n > 0,
    ensures
        m.phase == DefmtPhase::Reading ==> m.next(MonitorReply::Read(ReadOutcome::Bytes(n))).wants()
            == Some(MonitorAction::Feed(n)),
        m.phase == DefmtPhase::Decoding ==> {
            let written = m.next(MonitorReply::Decoded(DecodeOutcome::Frame(level)));
            let flushed = written.next(MonitorReply::Done);
            &&& written.wants() == Some(MonitorAction::WriteFrame(level))
            &&& flushed.wants() == Some(MonitorAction::Flush)
            &&& flushed.next(MonitorReply::Done).wants() == Some(MonitorAction::Decode)
        },
        ({
            let raw = RawMonitor::Reading.next(MonitorReply::Read(ReadOutcome::Bytes(n)));
            &&& raw.wants() == Some(MonitorAction::WriteBytes(n))
            &&& raw.next(MonitorReply::Done).wants() == Some(MonitorAction::Flush)
            &&& raw.next(MonitorReply::Done).next(MonitorReply::Done).wants() == Some(
                MonitorAction::Read,
            )
        }),
{
}

/// Only a framing that cannot find its way back makes the monitor of defmt output end on something
/// that is not a frame.
pub proof fn law_recoverable_framing_goes_on(m: DefmtMonitor)
    requires
        m.phase == DefmtPhase::Decoding,
    ensures
        m.next(MonitorReply::Decoded(DecodeOutcome::Malformed)) == if m.recoverable {
            m
        } else {
            m.at(DefmtPhase::Failed(Failure::Malformed))
        },
{
}

/// The line of a frame ends with the whole message. Before it stands nothing if the frame has no
/// level, and otherwise an opening bracket, the name of the level, a closing bracket and a space.
pub proof fn law_line_ends_with_message(level: Option<Level>, message: Seq<char>)
    ensures
        level is None ==> line(level, message) == message,
        level matches Some(l) ==> {
            let head: Seq<char> = match l {
                Level::Trace => seq!['[', 'T', 'r', 'a', 'c', 'e', ']', ' '],
                Level::Debug => seq!['[', 'D', 'e', 'b', 'u', 'g', ']', ' '],
                Level::Info => seq!['[', 'I', 'n', 'f', 'o', ']', ' '],
                Level::Warn => seq!['[', 'W', 'a', 'r', 'n', ']', ' '],
                Level::Error => seq!['[', 'E', 'r', 'r', 'o', 'r', ']', ' '],
            };
            let all = line(level, message);
            &&& all.len() == head.len() + message.len()
            &&& all.take(head.len() as int) == head
            &&& all.skip(head.len() as int) == message
        },
{
    reveal_strlit("[");
    reveal_strlit("] ");
    reveal_strlit("Trace");
    reveal_strlit("Debug");
    reveal_strlit("Info");
    reveal_strlit("Warn");
    reveal_strlit("Error");
    if let Some(l) = level {
        let all = line(level, message);
        let n = all.len() - message.len();
        assert(all.skip(n) =~= message);
    }
}

/// Two frames have the same line only if they have the same message, where both have a level or
/// neither has one.
pub proof fn law_line_tells_frames_apart(
    one: Level,
    other: Level,
    message: Seq<char>,
    text: Seq<char>,
)
    ensures
        line(Some(one), message) == line(Some(other), text) <==> one == other && message == text,
        line(None, message) == line(None, text) <==> message == text,
{
    law_line_ends_with_message(Some(one), message);
    law_line_ends_with_message(Some(other), text);
    let (a, b) = (line(Some(one), message), line(Some(other), text));
    if a == b {
        assert(a[1] == b[1]);
        lemma_initials(one, message);
        lemma_initials(other, text);
    }
}

proof fn lemma_initials(l: Level, message: Seq<char>)
    ensures
        line(Some(l), message)[1] == match l {
            Level::Trace => 'T',
            Level::Debug => 'D',
            Level::Info => 'I',
            Level::Warn => 'W',
            Level::Error => 'E',
        },
{
    reveal_strlit("[");
    reveal_strlit("] ");
    reveal_strlit("Trace");
    reveal_strlit("Debug");
    reveal_strlit("Info");
    reveal_strlit("Warn");
    reveal_strlit("Error");
}

/// The message of an ELF that cannot be parsed names the ELF and ends with the whole reason.
pub proof fn law_parse_failure_names_path_and_reason(path: Seq<char>, reason: Seq<char>)
    ensures
        ({
            let all = parse_failure(path, reason);
            &&& all.len() == 26 + path.len() + reason.len()
            &&& all.take(24) == "parsing defmt data from "@
            &&& all.subrange(24, 24 + path.len() as int) == path
            &&& all[24 + path.len() as int] == ':'
            &&& all[25 + path.len() as int] == ' '
            &&& all.skip(26 + path.len() as int) == reason
        }),
{
    reveal_strlit("parsing defmt data from ");
    reveal_strlit(": ");
    let all = parse_failure(path, reason);
    assert(all.take(24) =~= "parsing defmt data from "@);
    assert(all.subrange(24, 24 + path.len() as int) =~= path);
    assert(all.skip(26 + path.len() as int) =~= reason);
}

/// What ends a monitor: the port fails while it is read, or the terminal while it is written or
/// flushed. A read that brings nothing is tried again.
pub proof fn law_monitor_ends_on_failures(m: DefmtMonitor, level: Option<Level>, n: usize)
    ensures
        m.phase == DefmtPhase::Reading ==> {
            &&& m.wants() == Some(MonitorAction::Read)
            &&& m.next(MonitorReply::Read(ReadOutcome::Bytes(0))) == m
            &&& m.next(MonitorReply::Read(ReadOutcome::TimedOut)) == m
            &&& m.next(MonitorReply::Read(ReadOutcome::WouldBlock)) == m
            &&& m.next(MonitorReply::Read(ReadOutcome::Failed)).phase == DefmtPhase::Failed(
                Failure::Port,
            )
        },
        m.phase == DefmtPhase::Feeding(n) ==> m.wants() == Some(MonitorAction::Feed(n)) && m.next(
            MonitorReply::Done,
        ).wants() == Some(MonitorAction::Decode),
        m.phase == DefmtPhase::Decoding ==> m.next(
            MonitorReply::Decoded(DecodeOutcome::UnexpectedEof),
        ).wants() == Some(MonitorAction::Read),
        m.phase == DefmtPhase::Writing(level) || m.phase == DefmtPhase::Flushing ==> m.next(
            MonitorReply::OutputFailed,
        ).phase == DefmtPhase::Failed(Failure::Output),
        m.next(MonitorReply::Done).recoverable == m.recoverable,
        m.phase is Failed <==> m.wants() is None,
        RawMonitor::Reading.next(MonitorReply::Read(ReadOutcome::Bytes(0))) == RawMonitor::Reading,
        RawMonitor::Reading.next(MonitorReply::Read(ReadOutcome::TimedOut)) == RawMonitor::Reading,
        RawMonitor::Reading.next(MonitorReply::Read(ReadOutcome::WouldBlock))
            == RawMonitor::Reading,
        RawMonitor::Reading.next(MonitorReply::Read(ReadOutcome::Failed)) == RawMonitor::Failed(
            Failure::Port,
        ),
        RawMonitor::Writing(n).next(MonitorReply::OutputFailed) == RawMonitor::Failed(
            Failure::Output,
        ),
        RawMonitor::Flushing.next(MonitorReply::OutputFailed) == RawMonitor::Failed(
            Failure::Output,
        ),
{
}

/// A monitor takes no notice of a reply to something that it did not ask for.
pub proof fn law_monitor_takes_only_answers(m: DefmtMonitor, raw: RawMonitor, reply: MonitorReply)
    ensures
        !monitor_answers(m.wants(), reply) ==> m.next(reply) == m,
        !monitor_answers(raw.wants(), reply) ==> raw.next(reply) == raw,
{
}

/// Whether a reply is of the kind that answers an action of a monitor.
pub open spec fn monitor_answers(a: Option<MonitorAction>, reply: MonitorReply) -> bool {
    match a {
        Some(MonitorAction::SetDtr(_)) | Some(MonitorAction::Feed(_)) => reply is Done,
        Some(MonitorAction::Read) => reply is Read,
        Some(MonitorAction::Decode) => reply is Decoded,
        Some(MonitorAction::WriteFrame(_))
        | Some(MonitorAction::WriteBytes(_))
        | Some(MonitorAction::Flush) => reply is Done || reply is OutputFailed,
        None => false,
    }
}

} // verus!
