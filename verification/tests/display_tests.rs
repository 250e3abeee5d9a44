use board_tasks::display::{segments, FourDigitDisplay};
use board_tasks::ports::{apply_update, Port, PortUpdate};

#[test]
fn init_is_blank_at_first_digit() {
    let d = FourDigitDisplay::init();
    assert_eq!((d.digit1, d.digit2, d.digit3, d.digit4, d.current_digit), (0, 0, 0, 0, 1));
}

#[test]
fn set_digit_valid_and_invalid() {
    let mut d = FourDigitDisplay::init();
    assert!(d.set_digit(3, 7));
    assert_eq!(d.digit3, 7);
    assert!(!d.set_digit(0, 9));
    assert!(!d.set_digit(5, 9));
    assert_eq!((d.digit1, d.digit2, d.digit3, d.digit4), (0, 0, 7, 0));
}

#[test]
fn display_next_cycles_through_digits() {
    let mut d = FourDigitDisplay::init();
    let mut seen = Vec::new();
    for _ in 0..5 {
        seen.push(d.current_digit);
        d.display_next();
    }
    assert_eq!(seen, vec![1, 2, 3, 4, 1]);
}

#[test]
fn display_next_from_out_of_range_digit() {
    let mut d = FourDigitDisplay::init();
    d.current_digit = 9;
    let ups = d.display_next();
    assert!(ups.is_empty());
    assert_eq!(d.current_digit, 2);
}

#[test]
fn display_digit_sequence() {
    let mut d = FourDigitDisplay::init();
    d.set_digit(2, 8);
    let ups = d.display_digit(2);
    assert_eq!(
        ups,
        vec![
            PortUpdate { port: Port::D, clear: 0, set: 0x1C },
            PortUpdate { port: Port::C, clear: 0, set: 0x01 },
            PortUpdate { port: Port::B, clear: 0x0F, set: 0x0F },
            PortUpdate { port: Port::D, clear: 0xE0, set: 0xE0 },
            PortUpdate { port: Port::D, clear: 0x08, set: 0 },
        ]
    );
    assert!(d.display_digit(0).is_empty());
}

#[test]
fn display_digit_clamps_to_glyph_18() {
    let mut d = FourDigitDisplay::init();
    d.set_digit(4, 200);
    let ups = d.display_digit(4);
    assert_eq!(ups[2].set, 0x01);
    assert_eq!(ups[3].set, 0xC0);
    assert_eq!(ups[4], PortUpdate { port: Port::C, clear: 0x01, set: 0 });
}

#[test]
fn segment_table_samples() {
    assert_eq!(segments(0), (0x0F, 0xC0));
    assert_eq!(segments(1), (0x06, 0x00));
    assert_eq!(segments(15), (0x08, 0xE0));
    assert_eq!(segments(16), (0x00, 0xA0));
    assert_eq!(segments(17), (0x07, 0xC0));
    assert_eq!(segments(18), (0x01, 0xC0));
}

#[test]
fn port_update_application() {
    // PORTB 0xF5 with glyph 1 on the low nibble keeps the high nibble.
    assert_eq!(apply_update(0xF5, PortUpdate { port: Port::B, clear: 0x0F, set: 0x06 }), 0xF6);
    assert_eq!(apply_update(0x00, PortUpdate { port: Port::D, clear: 0, set: 0x1C }), 0x1C);
}
