use cxd56::icc::{Action, Reply};
use cxd56::sleep::boot;
use cxd56::sleep::{
    clear_boot_mask, cold_sleep, deep_sleep, set_boot_mask, Sleep, SleepAction, SleepReply,
    DEEP_PROHIBIT, NON_MASKABLE,
};

#[test]
fn pin_slots() {
    assert_eq!(boot::gpio_mask(0), 0x0001_0000);
    assert_eq!(boot::gpio_mask(6), 0x0040_0000);
    assert_eq!(boot::gpio_mask(11), 0x0800_0000);
    assert_eq!(boot::gpio_mask(15), 0x8000_0000);
    let mut all = 0;
    for slot in 0..12u8 {
        assert_eq!(all & boot::gpio_mask(slot), 0);
        all |= boot::gpio_mask(slot);
    }
    assert_eq!(all, boot::COLD_GPIO);
}

#[test]
fn source_sets() {
    assert_eq!(
        NON_MASKABLE,
        boot::POR_NORMAL
            | boot::POR_DEADBATT
            | boot::WDT_REBOOT
            | boot::WDT_RESET
            | boot::DEEP_USB_ATTACH
            | boot::DEEP_OTHERS
    );
    assert_eq!(DEEP_PROHIBIT, boot::DEEP_WKUPS | boot::DEEP_RTC);
}

#[test]
fn sources_are_enabled() {
    assert_eq!(set_boot_mask(0x11, 0x22), 0x33);
    assert_eq!(set_boot_mask(0x11, 0x11), 0x11);
}

#[test]
fn sources_are_disabled() {
    // A pin, while the real-time clock stays.
    assert_eq!(clear_boot_mask(0x0001_00f7, 0x0001_0000), 0xf7);
    // What cannot be disabled stays.
    assert_eq!(clear_boot_mask(0xff, 0xc7), 0xff);
    assert_eq!(clear_boot_mask(0xff, 0xff), 0xf7);
    // One of the two wake sources of deep sleep may go, both may not.
    assert_eq!(clear_boot_mask(0x30, 0x10), 0x20);
    assert_eq!(clear_boot_mask(0x20, 0x20), 0x20);
    assert_eq!(clear_boot_mask(0x38, 0x38), 0x30);
    // Without either of them, the rest goes all the same.
    assert_eq!(clear_boot_mask(0x0001_0008, 0x0001_0008), 0);
}

fn drive(mut s: Sleep, event: Option<[u32; 2]>) -> (Sleep, i32) {
    let mut api = 0;
    let mut asked = false;
    for _ in 0..20_000_000u32 {
        let reply = match s.action() {
            SleepAction::Call(Action::Stage(arg)) => {
                assert_eq!(arg, [0; 4]);
                SleepReply::Call(Reply::Staged { cpuid: 2, arg: 0x100 })
            }
            SleepAction::Call(Action::Publish(m)) => {
                api = m.api.id;
                assert_eq!(m.modid, 0);
                SleepReply::Call(Reply::Address(0x200))
            }
            SleepAction::Call(Action::Push(_)) => {
                asked = true;
                SleepReply::Call(Reply::Pushed(true))
            }
            SleepAction::Call(Action::PopFlg) => {
                SleepReply::Call(Reply::Words(if asked { event } else { None }))
            }
            SleepAction::Call(_) => SleepReply::Call(Reply::Done),
            SleepAction::SyncBarrier => SleepReply::Done,
            SleepAction::Halt => break,
        };
        s = s.step(reply);
    }
    (s, api)
}

#[test]
fn sleep_does_not_come_back() {
    let (s, api) = drive(deep_sleep(), Some([0x7, 0]));
    assert_eq!(api, 84);
    assert!(matches!(s, Sleep::Halted));
    assert!(matches!(s.step(SleepReply::Done), Sleep::Halted));
    assert!(matches!(s.step(SleepReply::Call(Reply::Done)).action(), SleepAction::Halt));
    // A call that times out ends the same way.
    let (s, api) = drive(cold_sleep(), None);
    assert_eq!(api, 80);
    assert!(matches!(s.action(), SleepAction::Halt));
}
