use board_tasks::lcd::{clear, delay_ms, goto_xy, init, send_command, write_char, write_str, LcdOp};

fn writes(ops: &[LcdOp]) -> Vec<u8> {
    ops.iter()
        .filter_map(|o| match o {
            LcdOp::Write(v) => Some(*v),
            _ => None,
        })
        .collect()
}

#[test]
fn command_is_two_nibbles_with_en_pulses() {
    let ops = send_command(0x28);
    assert_eq!(
        ops,
        vec![
            LcdOp::Write(0x28),
            LcdOp::Delay(800),
            LcdOp::Write(0x20),
            LcdOp::Delay(800),
            LcdOp::Write(0x88),
            LcdOp::Delay(800),
            LcdOp::Write(0x80),
            LcdOp::Delay(800),
        ]
    );
}

#[test]
fn char_sets_register_select() {
    let w = writes(&write_char(b'A'));
    assert_eq!(w, vec![0x4C, 0x44, 0x1C, 0x14]);
    // The latched byte is rebuilt from the two EN-low writes.
    assert_eq!((w[1] & 0xF0) | (w[3] >> 4), b'A');
}

#[test]
fn string_is_each_char() {
    let ops = write_str("Hi");
    let mut expect = write_char(b'H');
    expect.extend(write_char(b'i'));
    assert_eq!(ops, expect);
    assert!(write_str("").is_empty());
}

#[test]
fn goto_and_clear() {
    assert_eq!(goto_xy(1, 5), send_command(0xC5));
    assert_eq!(goto_xy(0, 0), send_command(0x80));
    let c = clear();
    assert_eq!(c.len(), 9);
    assert_eq!(c[8], LcdOp::Delay(80_000));
    assert_eq!(delay_ms(3), LcdOp::Delay(48_000));
}

#[test]
fn init_sequence_shape() {
    let ops = init();
    assert_eq!(ops[0], LcdOp::Delay(800_000));
    assert_eq!(ops[1], LcdOp::Write(0x38));
    // 4 nibbles, 5 commands and 10 waits
    assert_eq!(ops.len(), 1 + 4 * 4 + 5 * 8 + 9);
    assert_eq!(*ops.last().unwrap(), LcdOp::Delay(16_000));
}
