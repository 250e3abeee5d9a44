use board_tasks::logger::{
    distance_line, log_idle, log_idle_alert, log_led_selection, log_ranges, log_step_period,
    write_u32, RangeClass,
};

fn text(v: Vec<u8>) -> String {
    String::from_utf8(v).unwrap()
}

#[test]
fn decimal_digits() {
    assert_eq!(text(write_u32(0)), "0");
    assert_eq!(text(write_u32(7)), "7");
    assert_eq!(text(write_u32(10)), "10");
    assert_eq!(text(write_u32(1234567)), "1234567");
    assert_eq!(text(write_u32(u32::MAX)), "4294967295");
}

#[test]
fn decimal_round_trip_samples() {
    for n in [0u32, 1, 9, 10, 99, 100, 65535, 1_000_000, u32::MAX] {
        let s = text(write_u32(n));
        assert_eq!(s.parse::<u32>().unwrap(), n);
        assert!(s.len() <= 10);
        assert!(n == 0 || !s.starts_with('0'));
    }
}

#[test]
fn log_lines() {
    assert_eq!(text(log_step_period(15)), "step_period=15 ms/phase\n");
    assert_eq!(text(log_idle(1000)), "idle=1000 ms\n");
    assert_eq!(text(log_idle_alert(10000)), "idle=10000 ms ALERT\n");
    assert_eq!(text(log_led_selection(b"RED", 5, 12)), "LED:RED b=5 d=12\n");
    assert_eq!(text(log_ranges(10, 15)), "CLOSE=10 MED=15\n");
}

#[test]
fn distance_lines() {
    assert_eq!(text(distance_line(997, RangeClass::Close)), "ERR:no_echo\n");
    assert_eq!(text(distance_line(998, RangeClass::Far)), "ERR:stuck_hi\n");
    assert_eq!(text(distance_line(8, RangeClass::Close)), "8 C\n");
    assert_eq!(text(distance_line(12, RangeClass::Medium)), "12 M\n");
    assert_eq!(text(distance_line(40, RangeClass::Far)), "40 H\n");
}
