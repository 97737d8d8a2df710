use clock_tree::pac::{
    dmac_busych, i2cs_syncbusy, rtc_mode0_intenclr, rtc_mode2_intflag, sdhc_nisier, usart_intflag,
};

#[test]
fn busych_reads_each_channel() {
    let r = dmac_busych::R::from_bits(0b10_0101);
    assert!(r.busych0().bit());
    assert!(!r.busych1().bit());
    assert!(r.busych2().bit());
    assert!(!r.busych3().bit());
    assert!(!r.busych4().bit());
    assert!(r.busych5().bit());
    assert_eq!(r.bits(), 0b10_0101);
}

#[test]
fn syncbusy_reads_bits_zero_one_and_four() {
    let r = i2cs_syncbusy::R::from_bits(0b1_0010);
    assert!(!r.swrst().bit());
    assert!(r.enable().bit());
    assert!(r.length().bit());
    let r = i2cs_syncbusy::R::from_bits(0b0_1101);
    assert!(r.swrst().bit());
    assert!(!r.enable().bit());
    assert!(!r.length().bit());
}

#[test]
fn usart_intflag_reads_and_writes() {
    let r = usart_intflag::R::from_bits(0b1010_0110);
    assert!(!r.dre().bit());
    assert!(r.txc().bit());
    assert!(r.rxc().bit());
    assert!(!r.ctsic().bit());
    assert!(r.rxbrk().bit());
    assert!(r.error().bit());

    let mut w = usart_intflag::W::reset();
    assert_eq!(w.bits(), 0);
    w.txc().set_bit();
    w.rxs().set_bit();
    w.ctsic().bit(true);
    w.rxbrk().set_bit();
    w.error().set_bit();
    assert_eq!(w.bits(), 0b1011_1010);
    w.rxs().clear_bit();
    assert_eq!(w.bits(), 0b1011_0010);
}

#[test]
fn rtc_mode2_intflag_reads_and_writes() {
    let r = rtc_mode2_intflag::R::from_bits(0b1100_0011_0101_0101);
    assert!(r.per0().bit());
    assert!(!r.per1().bit());
    assert!(r.per2().bit());
    assert!(!r.per3().bit());
    assert!(r.per4().bit());
    assert!(!r.per5().bit());
    assert!(r.per6().bit());
    assert!(!r.per7().bit());
    assert!(r.alarm0().bit());
    assert!(r.alarm1().bit());
    assert!(r.tamper().bit());
    assert!(r.ovf().bit());

    let mut w = rtc_mode2_intflag::W::reset();
    w.per0().set_bit();
    w.per1().set_bit();
    w.per2().set_bit();
    w.per3().set_bit();
    w.per4().set_bit();
    w.per5().set_bit();
    w.per6().set_bit();
    w.per7().set_bit();
    assert_eq!(w.bits(), 0x00ff);
    w.alarm0().set_bit();
    w.alarm1().set_bit();
    w.tamper().set_bit();
    w.ovf().set_bit();
    assert_eq!(w.bits(), 0xc3ff);
    w.per3().clear_bit();
    w.ovf().clear_bit();
    assert_eq!(w.bits(), 0x43f7);
}

#[test]
fn rtc_mode0_intenclr_reads_and_writes() {
    let r = rtc_mode0_intenclr::R::from_bits(0x0300);
    assert!(r.cmp0().bit());
    assert!(r.cmp1().bit());
    assert!(!r.tamper().bit());
    assert!(!r.ovf().bit());
    assert!(!r.per0().bit());
    assert!(!r.per1().bit());
    assert!(!r.per2().bit());
    assert!(!r.per3().bit());
    assert!(!r.per4().bit());
    assert!(!r.per5().bit());
    assert!(!r.per6().bit());
    assert!(!r.per7().bit());

    let mut w = rtc_mode0_intenclr::W::from_bits(0xffff);
    w.cmp0().clear_bit();
    w.cmp1().clear_bit();
    assert_eq!(w.bits(), 0xfcff);
    w.per0().clear_bit();
    w.per1().clear_bit();
    w.per2().clear_bit();
    w.per3().clear_bit();
    w.per4().clear_bit();
    w.per5().clear_bit();
    w.per6().clear_bit();
    w.per7().clear_bit();
    w.tamper().clear_bit();
    w.ovf().clear_bit();
    assert_eq!(w.bits(), 0x3c00);
}

#[test]
fn nisier_enumerated_fields() {
    let r = sdhc_nisier::R::from_bits(0b1_0101_0101);
    assert_eq!(r.cmdc().variant(), sdhc_nisier::Cmdcselect::Enabled);
    assert!(r.cmdc().is_enabled());
    assert!(!r.cmdc().is_masked());
    assert_eq!(r.trfc().variant(), sdhc_nisier::Trfcselect::Masked);
    assert!(r.trfc().is_masked());
    assert!(r.blkge().is_enabled());
    assert!(r.dmaint().is_masked());
    assert!(r.bwrrdy().is_enabled());
    assert!(r.brdrdy().is_masked());
    assert!(r.cins().is_enabled());
    assert!(r.crem().is_masked());
    assert!(r.cint().is_enabled());
    assert_eq!(r.cint().variant(), sdhc_nisier::Cintselect::Enabled);
    assert_eq!(r.crem().variant(), sdhc_nisier::Cremselect::Masked);

    let mut w = sdhc_nisier::W::reset();
    w.cmdc().enabled();
    w.trfc().enabled();
    w.blkge().enabled();
    w.dmaint().enabled();
    w.bwrrdy().enabled();
    w.brdrdy().enabled();
    w.cins().enabled();
    w.crem().enabled();
    w.cint().enabled();
    assert_eq!(w.bits(), 0x01ff);
    w.trfc().masked();
    w.cint().masked();
    w.dmaint().variant(sdhc_nisier::Dmaintselect::Masked);
    assert_eq!(w.bits(), 0x00f5);
    w.dmaint().variant(sdhc_nisier::Dmaintselect::Enabled);
    assert_eq!(w.bits(), 0x00fd);
}

#[test]
fn nisier_selections_convert_to_bits() {
    assert!(!bool::from(sdhc_nisier::Cmdcselect::Masked));
    assert!(bool::from(sdhc_nisier::Cmdcselect::Enabled));
    assert!(bool::from(sdhc_nisier::Trfcselect::Enabled));
    assert!(!bool::from(sdhc_nisier::Blkgeselect::Masked));
    assert!(bool::from(sdhc_nisier::Dmaintselect::Enabled));
    assert!(!bool::from(sdhc_nisier::Bwrrdyselect::Masked));
    assert!(bool::from(sdhc_nisier::Brdrdyselect::Enabled));
    assert!(!bool::from(sdhc_nisier::Cinsselect::Masked));
    assert!(bool::from(sdhc_nisier::Cremselect::Enabled));
    assert!(!bool::from(sdhc_nisier::Cintselect::Masked));
}
