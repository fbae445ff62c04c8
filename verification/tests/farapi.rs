use cxd56::farapi::{
    acknowledge, call, call_to, is_completion, ApiMsg, FarCall, FarMsg, FarapiError, Phase,
    CPUID_SYSIOP, DEFAULT_POLL_BUDGET,
};
use cxd56::icc::{Action, Reply};

const EVENT: [u32; 2] = [0x0342_1207, 5];

fn run(mut c: FarCall, replies: &[Reply]) -> FarCall {
    for r in replies {
        c = c.step(*r);
    }
    c
}

/// A call that is about to push its request.
fn opened(budget: u32) -> FarCall {
    run(
        call(2, 0, 72, 0x0d00_1000, budget),
        &[Reply::Address(0x0d00_2000), Reply::Done, Reply::Words(None)],
    )
}

#[test]
fn message_block() {
    let c = call(2, 8, 144, 0x0d00_1000, DEFAULT_POLL_BUDGET);
    assert_eq!(
        c.msg,
        FarMsg {
            next: 0,
            cpuid: 2,
            modid: 8,
            api: ApiMsg { id: 144, arg: 0x0d00_1000, mbxid: 0, flagid: 0x307, flagbitno: 0 },
        }
    );
    assert_eq!(c.dest_cpu, CPUID_SYSIOP);
    assert_eq!(c.budget, 5_000_000);
    // The flag id keeps its low half.
    assert_eq!(call(0x7f, 0, 0, 0, 1).msg.api.flagid, -0x7ff9);
    assert_eq!(call(0xff, 0, 0, 0, 1).msg.api.flagid, 7);
}

#[test]
fn whole_call() {
    let c = call_to(1, 2, 8, 12, 0x0d00_1000, 10);
    assert!(matches!(c.action(), Some(Action::Publish(m)) if m == c.msg));
    let c = c.step(Reply::Address(0x0d00_2000));
    assert!(matches!(c.action(), Some(Action::Barrier)));
    let c = c.step(Reply::Done);
    assert!(matches!(c.action(), Some(Action::PopFlg)));
    // What is queued from earlier is thrown away, a completion too.
    let c = c.step(Reply::Words(Some(EVENT)));
    assert!(matches!(c.action(), Some(Action::PopFlg)));
    let c = c.step(Reply::Words(None));
    assert!(matches!(c.action(), Some(Action::Push([0x1140_0101, 0x0d00_2000]))));
    let c = c.step(Reply::Pushed(true));
    assert!(matches!(c.action(), Some(Action::PopFlg)));
    let c = c.step(Reply::Words(Some([0x0300_0001, 0])));
    assert!(matches!(c.phase, Phase::Wait { left: 9 }));
    let c = c.step(Reply::Words(Some(EVENT)));
    assert!(matches!(c.action(), Some(Action::Push([0x0350_1200, 0]))));
    let c = c.step(Reply::Pushed(true));
    assert!(matches!(c.action(), Some(Action::Barrier)));
    assert_eq!(c.outcome(), None);
    let c = c.step(Reply::Done);
    assert!(c.action().is_none());
    assert_eq!(c.outcome(), Some(Ok(())));
}

#[test]
fn request_times_out() {
    let full = [Reply::Pushed(false), Reply::Done];
    let c = run(opened(2), &full);
    assert_eq!(c.outcome(), None);
    assert_eq!(run(c, &full).outcome(), Some(Err(FarapiError::Timeout)));
    assert_eq!(opened(0).outcome(), Some(Err(FarapiError::Timeout)));
}

#[test]
fn completion_times_out() {
    let c = opened(2).step(Reply::Pushed(true)).step(Reply::Words(None));
    assert_eq!(c.outcome(), None);
    assert_eq!(
        c.step(Reply::Words(Some([0x0300_0008, 0]))).outcome(),
        Some(Err(FarapiError::Timeout))
    );
}

#[test]
fn acknowledgement_times_out() {
    let full = [Reply::Pushed(false), Reply::Done];
    let c = opened(2).step(Reply::Pushed(true)).step(Reply::Words(Some(EVENT)));
    let c = run(c, &full);
    assert!(matches!(c.action(), Some(Action::Push([0x0350_1200, 0]))));
    assert_eq!(run(c, &full).outcome(), Some(Err(FarapiError::Timeout)));
}

#[test]
fn refused_pushes_drain() {
    let c = opened(3).step(Reply::Pushed(false));
    assert!(matches!(c.action(), Some(Action::DrainRx)));
    let c = opened(3).step(Reply::Pushed(true)).step(Reply::Words(Some(EVENT)));
    assert!(matches!(c.step(Reply::Pushed(false)).action(), Some(Action::DrainRx)));
}

#[test]
fn unrelated_replies_are_ignored() {
    let c = opened(3);
    for r in [Reply::Done, Reply::Word(1), Reply::Words(None), Reply::Switched(true)] {
        assert!(matches!(c.step(r).phase, Phase::Request { left: 3, addr: 0x0d00_2000 }));
    }
}

#[test]
fn tries_are_bounded() {
    let mut c = opened(5);
    let mut tries = 0;
    while let Some(a) = c.action() {
        let r = match a {
            Action::Push(_) => {
                tries += 1;
                Reply::Pushed(tries % 5 == 0)
            }
            Action::PopFlg => {
                tries += 1;
                Reply::Words(if tries % 5 == 0 { Some(EVENT) } else { None })
            }
            _ => Reply::Done,
        };
        c = c.step(r);
    }
    assert_eq!(tries, 15);
    assert_eq!(c.outcome(), Some(Ok(())));
}

#[test]
fn completions() {
    assert!(is_completion([0x7, 0]));
    assert!(is_completion([0xffff_fff7, 0]));
    assert!(!is_completion([0x17_0000, 7]));
    assert_eq!(acknowledge([0xf342_abc7, 9]), [0xf350_ab00, 0]);
}
