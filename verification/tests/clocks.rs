use cxd56::clocks::shared::Change;
use cxd56::clocks::{
    Clock, ClockRef, Clocks, Crg, GearError, GearRequest, Hp, Perf, PerfControl, PeripheralId,
};
use cxd56::units::Hertz;

/// A sample whose rates are all different.
fn sample(base: u32, syspll: u32, appsmp: u32) -> Clocks {
    let at = |i: u32| Hertz::from_hz(base + i);
    Clocks {
        xosc: at(0),
        rcosc: at(1),
        rtc: at(2),
        scu: at(3),
        hpadc: at(4),
        lpadc: at(5),
        syspll: Hertz::from_hz(syspll),
        sys: at(6),
        sys_ahb: at(7),
        sys_apb: at(8),
        sys_sfc: at(9),
        com: at(10),
        pmui2c: at(11),
        gps_cpu: at(12),
        gps_ahb: at(13),
        appsmp: Hertz::from_hz(appsmp),
        usb: at(14),
        sdio: at(15),
        img_uart: at(16),
        img_spi: at(17),
        img_wspi: at(18),
        img_vsync: at(19),
    }
}

fn high() -> Clocks {
    sample(1_000, 156_000_000, 156_000_000)
}

fn low() -> Clocks {
    sample(2_000, 156_000_000, 31_200_000)
}

#[test]
fn signatures() {
    assert_eq!(high().perf(), Some(Perf::Hp));
    assert_eq!(low().perf(), Some(Perf::Lp));
    // The tree after a cold boot.
    assert_eq!(sample(0, 195_000_000, 97_500_000).perf(), None);
    assert_eq!(sample(0, 195_000_000, 156_000_000).perf(), None);
    // The edges of the bands.
    assert_eq!(sample(0, 156_000_000, 100_000_001).perf(), Some(Perf::Hp));
    assert_eq!(sample(0, 156_000_000, 100_000_000).perf(), None);
    assert_eq!(sample(0, 156_000_000, 50_000_000).perf(), None);
    assert_eq!(sample(0, 156_000_000, 49_999_999).perf(), Some(Perf::Lp));
}

#[test]
fn round_trip_of_the_operating_point() {
    let c = Clock::<Hp>::lock::<()>(Crg {}, Ok(high())).ok().unwrap();
    assert_eq!(c.com().hz().to_hz(), 1_010);
    assert_eq!(c.scu.hz().to_hz(), 1_003);
    assert_eq!(c.sampled_perf(&low()), Some(Perf::Lp));
    let c = c.into_lp::<()>(Ok(low())).ok().unwrap();
    assert_eq!(c.appsmp().hz().to_hz(), 31_200_000);
    assert_eq!(c.com().hz().to_hz(), 2_010);
    assert_eq!(c.lpadc.hz().to_hz(), 1_005);
    let mut again = high();
    again.com = Hertz::from_hz(7);
    let c = c.into_hp::<()>(Ok(again)).ok().unwrap();
    assert_eq!(c.com().hz().to_hz(), 7);
    assert_eq!(c.xosc.hz().to_hz(), 1_000);
    assert_eq!(c.rcosc.hz().to_hz(), 1_001);
    assert_eq!(c.rtc.hz().to_hz(), 1_002);
    assert_eq!(c.hpadc.hz().to_hz(), 1_004);
    let fixed = [c.xosc(), c.rcosc(), c.rtc(), c.scu(), c.hpadc(), c.lpadc()];
    assert_eq!(fixed.map(|f| f.hz().to_hz()), [1_000, 1_001, 1_002, 1_003, 1_004, 1_005]);
    assert_eq!(c.syspll().hz().to_hz(), 156_000_000);
    let rates: Vec<u32> = [
        c.sys(),
        c.sys_ahb(),
        c.sys_apb(),
        c.sys_sfc(),
        c.pmui2c(),
        c.gps_cpu(),
        c.gps_ahb(),
        c.usb(),
        c.sdio(),
        c.img_uart(),
        c.img_spi(),
        c.img_wspi(),
        c.img_vsync(),
    ]
    .iter()
    .map(|d| d.hz().to_hz())
    .collect();
    assert_eq!(
        rates,
        [1006, 1007, 1008, 1009, 1011, 1012, 1013, 1014, 1015, 1016, 1017, 1018, 1019]
    );
}

#[test]
fn failed_moves() {
    assert!(matches!(Clock::<Hp>::lock(Crg {}, Err(5)), Err(5)));
    let c = Clock::<Hp>::lock::<()>(Crg {}, Ok(high())).ok().unwrap();
    assert!(matches!(c.into_lp(Err("wedged")), Err("wedged")));
}

#[test]
fn divisors() {
    for (id, max) in [
        (PeripheralId::ImgUart, 0x7f),
        (PeripheralId::Spi4, 0x7f),
        (PeripheralId::Spi5, 0xf),
        (PeripheralId::Usb, 3),
        (PeripheralId::Sdio, 3),
    ] {
        assert_eq!(id.gear(0), Err(GearError::OutOfRange));
        assert_eq!(id.gear(1), Ok(GearRequest::Divide { id, divisor: 1 }));
        assert_eq!(id.gear(max), Ok(GearRequest::Divide { id, divisor: max }));
        assert_eq!(id.gear(max + 1), Err(GearError::OutOfRange));
    }
    assert_eq!(PeripheralId::Ungeared.gear(1), Err(GearError::Unsupported));
    let f = Hertz::from_hz(1);
    assert!(PeripheralId::Spi4.spi_gear(f, f).is_ok());
    assert!(PeripheralId::Spi5.spi_gear(f, f).is_ok());
    for id in [
        PeripheralId::ImgUart,
        PeripheralId::Usb,
        PeripheralId::Sdio,
        PeripheralId::Ungeared,
    ] {
        assert_eq!(id.spi_gear(f, f), Err(GearError::Unsupported));
    }
}

#[test]
fn divider_changes_refresh_the_rates() {
    let mut c = Clock::<Hp>::lock::<()>(Crg {}, Ok(high())).ok().unwrap();
    let change = c.set_gear(PeripheralId::ImgUart, 4).ok().unwrap();
    assert_eq!(change.request, GearRequest::Divide { id: PeripheralId::ImgUart, divisor: 4 });
    let mut after = high();
    after.img_uart = Hertz::from_hz(39_000_000);
    after.scu = Hertz::from_hz(1);
    assert_eq!(change.finish(Ok(after)), Ok(()));
    assert_eq!(c.img_uart().hz().to_hz(), 39_000_000);
    assert_eq!(c.scu.hz().to_hz(), 1_003);

    let change = c.set_spi_gear(PeripheralId::Spi5, Hertz::from_hz(13_000_000)).ok().unwrap();
    assert_eq!(
        change.request,
        GearRequest::SpiLimit {
            port: PeripheralId::Spi5,
            appsmp: Hertz::from_hz(156_000_000),
            maxfreq: Hertz::from_hz(13_000_000),
        }
    );
    assert_eq!(change.finish(Err(GearError::OutOfRange)), Err(GearError::OutOfRange));
    assert_eq!(c.img_uart().hz().to_hz(), 39_000_000);
    assert_eq!(c.set_gear(PeripheralId::Usb, 4).err(), Some(GearError::OutOfRange));
    assert_eq!(
        c.set_spi_gear(PeripheralId::Usb, Hertz::from_hz(1)).err(),
        Some(GearError::Unsupported)
    );
}

#[test]
fn shared_clock_counts_its_changes() {
    let mut r = ClockRef::from_crg(high());
    assert_eq!(r, ClockRef::from_clocks(&high()));
    assert_eq!(r.generation(), 0);
    assert_eq!(r.com().to_hz(), 1_010);
    assert_eq!(r.scu, 1_003);
    r.resample(&low());
    assert_eq!(r.generation(), 1);
    assert_eq!(r.scu, 1_003);
    assert_eq!(r.xosc, 1_000);
    let fixed = [r.xosc(), r.rcosc(), r.rtc(), r.scu(), r.hpadc(), r.lpadc()];
    assert_eq!(fixed.map(|f| f.to_hz()), [1_000, 1_001, 1_002, 1_003, 1_004, 1_005]);
    let rates: Vec<u32> = [
        r.syspll(),
        r.sys(),
        r.sys_ahb(),
        r.sys_apb(),
        r.sys_sfc(),
        r.com(),
        r.pmui2c(),
        r.gps_cpu(),
        r.gps_ahb(),
        r.appsmp(),
        r.usb(),
        r.sdio(),
        r.img_uart(),
        r.img_spi(),
        r.img_wspi(),
        r.img_vsync(),
    ]
    .iter()
    .map(|f| f.to_hz())
    .collect();
    assert_eq!(
        rates,
        [
            156_000_000, 2006, 2007, 2008, 2009, 2010, 2011, 2012, 2013, 31_200_000, 2014, 2015,
            2016, 2017, 2018, 2019,
        ]
    );
}

#[test]
fn control_of_the_shared_clock() {
    let mut p = PerfControl::new(ClockRef::from_crg(high()));
    assert_eq!(p.request_perf(Perf::Lp), Change::Perf(Perf::Lp));
    assert_eq!(p.complete::<()>(Ok(low())), Ok(()));
    assert_eq!(p.clock().generation(), 1);
    assert_eq!(p.clock().com().to_hz(), 2_010);
    assert_eq!(p.complete(Err(3)), Err(3));
    assert_eq!(p.clock().generation(), 1);
    assert_eq!(p.set_gear(PeripheralId::Spi5, 16), Err(GearError::OutOfRange));
    assert_eq!(
        p.set_gear(PeripheralId::Spi5, 15),
        Ok(Change::Gear(GearRequest::Divide { id: PeripheralId::Spi5, divisor: 15 }))
    );
    assert_eq!(
        p.set_spi_gear(PeripheralId::Spi4, Hertz::from_hz(9)),
        Ok(Change::Gear(GearRequest::SpiLimit {
            port: PeripheralId::Spi4,
            appsmp: Hertz::from_hz(31_200_000),
            maxfreq: Hertz::from_hz(9),
        }))
    );
}
