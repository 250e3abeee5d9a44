use board_tasks::sonar::{echo_ticks, EchoPoll, EchoWait};

#[test]
fn echo_arrives() {
    let mut w = EchoWait::new();
    assert_eq!(w.poll(false, false), EchoPoll { outcome: None, clear_overflow: false });
    assert_eq!(w.poll(true, true), EchoPoll { outcome: Some(true), clear_overflow: false });
}

#[test]
fn echo_times_out_on_fifth_overflow() {
    let mut w = EchoWait::new();
    for i in 1..5 {
        assert_eq!(w.poll(false, true), EchoPoll { outcome: None, clear_overflow: true });
        assert_eq!(w.ovf, i);
    }
    assert_eq!(w.poll(false, true), EchoPoll { outcome: Some(false), clear_overflow: true });
}

#[test]
fn pulse_length() {
    assert_eq!(echo_ticks(1000, 0), 1000);
    assert_eq!(echo_ticks(10, 2), 10 + 2 * 65535);
}
