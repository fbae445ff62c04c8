use cxd56::monitor::{
    describe_parse_failure, mode_or_failure, render, select, DecodeOutcome, DefmtMonitor, Failure,
    Level, Mode, MonitorAction, MonitorReply, RawMonitor, ReadOutcome,
};
use defmt_decoder::Table;

fn word(out: &mut Vec<u8>, v: u32) {
    out.extend_from_slice(&v.to_le_bytes());
}

fn half(out: &mut Vec<u8>, v: u16) {
    out.extend_from_slice(&v.to_le_bytes());
}

/// A 32-bit ARM ELF with one section of the given name, and absolute symbols.
fn elf(section: &str, symbols: &[&str]) -> Vec<u8> {
    let absolute: Vec<(&str, u32, u16)> = symbols.iter().map(|s| (*s, 0, 0xfff1)).collect();
    elf_with(section, &absolute)
}

/// A 32-bit ARM ELF with one section of the given name, which has index 1, and symbols with a name,
/// a value and a section index each.
fn elf_with(section: &str, symbols: &[(&str, u32, u16)]) -> Vec<u8> {
    let mut strtab = vec![0u8];
    let mut symtab = vec![0u8; 16];
    for (s, value, index) in symbols {
        word(&mut symtab, strtab.len() as u32);
        word(&mut symtab, *value);
        word(&mut symtab, 0);
        symtab.extend_from_slice(&[0x10, 0]);
        half(&mut symtab, *index);
        strtab.extend_from_slice(s.as_bytes());
        strtab.push(0);
    }
    let mut names = vec![0u8];
    let mut name_of = |s: &str| {
        let at = names.len() as u32;
        names.extend_from_slice(s.as_bytes());
        names.push(0);
        at
    };
    let n_data = name_of(section);
    let n_symtab = name_of(".symtab");
    let n_strtab = name_of(".strtab");
    let n_names = name_of(".shstrtab");
    while (strtab.len() + names.len()) % 4 != 0 {
        names.push(0);
    }

    let data = [0u8; 4];
    let at_data = 52u32;
    let at_symtab = at_data + data.len() as u32;
    let at_strtab = at_symtab + symtab.len() as u32;
    let at_names = at_strtab + strtab.len() as u32;
    let at_headers = at_names + names.len() as u32;

    let mut out = vec![0x7f, b'E', b'L', b'F', 1, 1, 1, 0, 0, 0, 0, 0, 0, 0, 0, 0];
    half(&mut out, 2);
    half(&mut out, 40);
    word(&mut out, 1);
    word(&mut out, 0);
    word(&mut out, 0);
    word(&mut out, at_headers);
    word(&mut out, 0);
    half(&mut out, 52);
    half(&mut out, 32);
    half(&mut out, 0);
    half(&mut out, 40);
    half(&mut out, 5);
    half(&mut out, 4);
    out.extend_from_slice(&data);
    out.extend_from_slice(&symtab);
    out.extend_from_slice(&strtab);
    out.extend_from_slice(&names);
    let mut header = |fields: [u32; 10]| {
        for f in fields {
            word(&mut out, f);
        }
    };
    header([0; 10]);
    header([n_data, 1, 0, 0, at_data, data.len() as u32, 0, 0, 1, 0]);
    header([n_symtab, 2, 0, 0, at_symtab, symtab.len() as u32, 3, 1, 4, 16]);
    header([n_strtab, 3, 0, 0, at_strtab, strtab.len() as u32, 0, 0, 1, 0]);
    header([n_names, 3, 0, 0, at_names, names.len() as u32, 0, 0, 1, 0]);
    out
}

#[test]
fn elf_without_defmt_means_raw_output() {
    assert!(matches!(select("app.elf", &elf(".text", &["main"])), Ok(Mode::Raw)));
}

#[test]
fn elf_with_defmt_is_decoded() {
    let rzcobs = elf(".defmt", &["_defmt_version_ = 4", "_defmt_encoding_ = rzcobs"]);
    assert!(matches!(
        select("app.elf", &rzcobs),
        Ok(Mode::Defmt { recoverable: true, .. })
    ));
    let raw = elf(".defmt", &["_defmt_version_ = 4", "_defmt_encoding_ = raw"]);
    match select("app.elf", &raw) {
        Ok(Mode::Defmt { table, recoverable }) => {
            assert!(!recoverable);
            assert!(table.is_empty());
            assert_eq!(Table::parse(&raw).unwrap(), Some(table));
        }
        _ => panic!("not decoded"),
    }
}

#[test]
fn broken_elf_is_an_error() {
    let text = select("dir/app.elf", b"not an ELF").err().unwrap();
    let why = Table::parse(b"not an ELF").unwrap_err().to_string();
    assert_eq!(text, format!("parsing defmt data from dir/app.elf: {why}"));
    let text = select("a", &elf(".defmt", &[])).err().unwrap();
    assert_eq!(
        text,
        "parsing defmt data from a: found `.defmt` metadata sections, but no defmt version symbol"
    );
    assert_eq!(describe_parse_failure("x", "y"), "parsing defmt data from x: y");
}

/// The bytes in a buffer where they begin `off` bytes past a multiple of 8.
fn placed(bytes: &[u8], off: usize) -> (Vec<u8>, usize) {
    let mut buf = vec![0u8; bytes.len() + 16];
    let start = (8 - buf.as_ptr() as usize % 8) % 8 + off;
    buf[start..start + bytes.len()].copy_from_slice(bytes);
    (buf, start)
}

fn with_message(data: &str) -> Vec<u8> {
    let name = format!(
        "{{\"package\":\"p\",\"tag\":\"defmt_info\",\"data\":\"{data}\",\"disambiguator\":\"1\"}}"
    );
    elf_with(
        ".defmt",
        &[
            ("_defmt_version_ = 4", 0, 0xfff1),
            ("_defmt_encoding_ = rzcobs", 0, 0xfff1),
            (&name, 3, 1),
        ],
    )
}

#[test]
fn table_is_that_of_the_elf() {
    let one = with_message("hello");
    let other = with_message("goodbye");
    let (buf, start) = placed(&one, 0);
    let Ok(Mode::Defmt { table, recoverable }) = select("a", &buf[start..start + one.len()]) else {
        panic!("not decoded")
    };
    assert!(recoverable);
    assert_eq!(table.indices().collect::<Vec<_>>(), vec![3]);
    assert!(table.raw_symbols().all(|s| s.contains("hello")));
    assert!(Table::parse(&other).unwrap().unwrap() != table);
    let (frame, used) = table.decode(&[3, 0]).unwrap();
    assert_eq!(used, 2);
    assert_eq!(frame.display_message().to_string(), "hello");
}

#[test]
fn elf_out_of_alignment_is_an_error() {
    let bytes = with_message("hello");
    let (buf, start) = placed(&bytes, 1);
    let elf = &buf[start..start + bytes.len()];
    let why = Table::parse(elf).unwrap_err().to_string();
    let text = select("app.elf", elf).err().unwrap();
    assert_eq!(text, format!("parsing defmt data from app.elf: {why}"));
}

#[test]
fn modes() {
    assert!(matches!(mode_or_failure("a", Ok(None)), Ok(Mode::Raw)));
    let raw = elf(".defmt", &["_defmt_version_ = 4", "_defmt_encoding_ = raw"]);
    let table = Table::parse(&raw).unwrap().unwrap();
    match mode_or_failure("a", Ok(Some((table.clone(), true)))) {
        Ok(Mode::Defmt { table: t, recoverable }) => {
            assert!(recoverable);
            assert_eq!(t, table);
        }
        _ => panic!("not decoded"),
    }
    assert_eq!(
        mode_or_failure("x", Err(String::from("y"))).err().unwrap(),
        "parsing defmt data from x: y"
    );
}

#[test]
fn lines() {
    assert_eq!(render(None, "hello"), "hello");
    assert_eq!(render(Some(Level::Trace), "a"), "[Trace] a");
    assert_eq!(render(Some(Level::Debug), "a"), "[Debug] a");
    assert_eq!(render(Some(Level::Info), ""), "[Info] ");
    assert_eq!(render(Some(Level::Warn), "b c"), "[Warn] b c");
    assert_eq!(render(Some(Level::Error), "x"), "[Error] x");
}

fn reading(recoverable: bool) -> DefmtMonitor {
    let m = DefmtMonitor::run_defmt(recoverable);
    assert_eq!(m.action(), Some(MonitorAction::SetDtr(false)));
    let m = m.step(MonitorReply::Done);
    assert_eq!(m.action(), Some(MonitorAction::SetDtr(true)));
    let m = m.step(MonitorReply::Done);
    assert_eq!(m.action(), Some(MonitorAction::SetDtr(false)));
    let m = m.step(MonitorReply::Done);
    assert_eq!(m.action(), Some(MonitorAction::Read));
    m
}

#[test]
fn defmt_frames_are_written() {
    let m = reading(true);
    for nothing in [ReadOutcome::Bytes(0), ReadOutcome::TimedOut, ReadOutcome::WouldBlock] {
        assert_eq!(m.step(MonitorReply::Read(nothing)), m);
    }
    let m = m.step(MonitorReply::Read(ReadOutcome::Bytes(7)));
    assert_eq!(m.action(), Some(MonitorAction::Feed(7)));
    let m = m.step(MonitorReply::Done);
    for level in [Some(Level::Warn), None] {
        assert_eq!(m.action(), Some(MonitorAction::Decode));
        let w = m.step(MonitorReply::Decoded(DecodeOutcome::Frame(level)));
        assert_eq!(w.action(), Some(MonitorAction::WriteFrame(level)));
        assert_eq!(w.step(MonitorReply::OutputFailed).failure(), Some(Failure::Output));
        let f = w.step(MonitorReply::Done);
        assert_eq!(f.action(), Some(MonitorAction::Flush));
        assert_eq!(f.step(MonitorReply::OutputFailed).failure(), Some(Failure::Output));
        assert_eq!(f.step(MonitorReply::Done), m);
    }
    let r = m.step(MonitorReply::Decoded(DecodeOutcome::UnexpectedEof));
    assert_eq!(r.action(), Some(MonitorAction::Read));
    let end = r.step(MonitorReply::Read(ReadOutcome::Failed));
    assert_eq!(end.failure(), Some(Failure::Port));
    assert_eq!(end.action(), None);
}

#[test]
fn malformed_frames() {
    let bad = MonitorReply::Decoded(DecodeOutcome::Malformed);
    let m = reading(true).step(MonitorReply::Read(ReadOutcome::Bytes(1))).step(MonitorReply::Done);
    assert_eq!(m.step(bad), m);
    assert_eq!(m.failure(), None);
    let m = reading(false).step(MonitorReply::Read(ReadOutcome::Bytes(1))).step(MonitorReply::Done);
    assert_eq!(m.step(bad).failure(), Some(Failure::Malformed));
}

#[test]
fn raw_bytes_are_written() {
    let m = RawMonitor::run_raw();
    assert_eq!(m.action(), Some(MonitorAction::Read));
    for nothing in [ReadOutcome::Bytes(0), ReadOutcome::TimedOut, ReadOutcome::WouldBlock] {
        assert_eq!(m.step(MonitorReply::Read(nothing)), m);
    }
    let w = m.step(MonitorReply::Read(ReadOutcome::Bytes(3)));
    assert_eq!(w.action(), Some(MonitorAction::WriteBytes(3)));
    assert_eq!(w.step(MonitorReply::OutputFailed).failure(), Some(Failure::Output));
    let f = w.step(MonitorReply::Done);
    assert_eq!(f.action(), Some(MonitorAction::Flush));
    assert_eq!(f.step(MonitorReply::OutputFailed).failure(), Some(Failure::Output));
    assert_eq!(f.step(MonitorReply::Done), m);
    assert_eq!(m.step(MonitorReply::Read(ReadOutcome::Failed)).failure(), Some(Failure::Port));
    assert_eq!(m.failure(), None);
}
