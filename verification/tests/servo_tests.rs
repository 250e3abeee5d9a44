use board_tasks::servo::set_from_adc;

#[test]
fn servo_positions() {
    assert_eq!(set_from_adc(512), 2999);
    assert_eq!(set_from_adc(0), 999);
    assert_eq!(set_from_adc(1023), 4999);
    assert_eq!(set_from_adc(256), 1999);
    assert_eq!(set_from_adc(768), 4000);
}

#[test]
fn servo_monotone_over_adc_range() {
    let mut prev = set_from_adc(0);
    for adc in 1..=1023u16 {
        let cur = set_from_adc(adc);
        assert!(cur >= prev);
        assert!((999..=4999).contains(&cur));
        prev = cur;
    }
}

#[test]
fn servo_out_of_range_reading_truncates() {
    // (65535 - 512) * 2000 / 511 = 254493, which keeps its low 16 bits.
    let d = (254_493u32 & 0xFFFF) as u16;
    assert_eq!(set_from_adc(u16::MAX), 2999u16.saturating_add(d).min(39999));
}
