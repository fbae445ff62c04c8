//! The bits of a boot cause and of the boot mask: each names a reason to boot, and a wake source.
//! Those whose name begins with `COLD` work from cold sleep only.

use vstd::prelude::*;

use vstd::arithmetic::power2;

verus! {

/// Power-on.
pub const POR_NORMAL: u32 = 0x0000_0000;

/// Power-on after the battery was empty.
pub const POR_DEADBATT: u32 = 0x0000_0001;

/// Reboot by the watchdog.
pub const WDT_REBOOT: u32 = 0x0000_0002;

/// Reset by the watchdog.
pub const WDT_RESET: u32 = 0x0000_0004;

/// Long press of the power button.
pub const DEEP_WKUPL: u32 = 0x0000_0008;

/// Short press of the power button.
pub const DEEP_WKUPS: u32 = 0x0000_0010;

/// Real-time clock.
pub const DEEP_RTC: u32 = 0x0000_0020;

/// USB attach.
pub const DEEP_USB_ATTACH: u32 = 0x0000_0040;

/// Another cause that the firmware defines.
pub const DEEP_OTHERS: u32 = 0x0000_0080;

/// Sensor interrupt.
pub const COLD_SCU_INT: u32 = 0x0000_0100;

/// Alarm 0 of the real-time clock.
pub const COLD_RTC_ALM0: u32 = 0x0000_0200;

/// Alarm 1 of the real-time clock.
pub const COLD_RTC_ALM1: u32 = 0x0000_0400;

/// Alarm 2 of the real-time clock.
pub const COLD_RTC_ALM2: u32 = 0x0000_0800;

/// Alarm error of the real-time clock.
pub const COLD_RTC_ALMERR: u32 = 0x0000_1000;

/// Any pin: bits 16 to 27 are the pin slots 0 to 11.
pub const COLD_GPIO: u32 = 0x0fff_0000;

/// Sensor interrupt, second source.
pub const COLD_SEN_INT: u32 = 0x1000_0000;

/// Interrupt of the power controller.
pub const COLD_PMIC_INT: u32 = 0x2000_0000;

/// USB detach.
pub const COLD_USB_DETACH: u32 = 0x4000_0000;

/// USB attach.
pub const COLD_USB_ATTACH: u32 = 0x8000_0000;

/// The bit of a pin slot.
pub fn gpio_mask(exdevice_slot: u8) -> (m: u32)
    requires
        exdevice_slot < 16,
    ensures
        m == 1u32 << ((exdevice_slot + 16) as u32),
        m == power2::pow2((exdevice_slot + 16) as nat),
        exdevice_slot <= 11 ==> m & COLD_GPIO == m && m != 0,
{
    let shift: u32 = exdevice_slot as u32 + 16;
    proof {
        power2::lemma_pow2_strictly_increases(shift as nat, 32);
        power2::lemma2_to64();
        vstd::bits::lemma_u32_shl_is_mul(1, shift);
        assert(1u32 << shift != 0 && (shift <= 27 ==> (1u32 << shift) & 0x0fff_0000 == 1u32
            << shift)) by (bit_vector)
            requires
                16 <= shift < 32,
        ;
    }
    1u32 << shift
}

/// The bits of two pin slots are different.
pub proof fn law_slots_are_distinct(a: u32, b: u32)
    requires
        a <= 11,
        b <= 11,
        a != b,
    ensures
        (1u32 << ((a + 16) as u32)) & (1u32 << ((b + 16) as u32)) == 0,
{
    let x = (a + 16) as u32;
    let y = (b + 16) as u32;
    assert((1u32 << x) & (1u32 << y) == 0) by (bit_vector)
        requires
            x < 32,
            y < 32,
            x != y,
    ;
}

} // verus!
