use vstd::prelude::*;
use crate::ports::{Port, PortUpdate};

verus! {

/// A four-digit, seven-segment display driven one digit at a time.
/// Digit `n` (1..=4) shows the glyph of the value stored for it.
pub struct FourDigitDisplay {
    pub digit1: u8,
    pub digit2: u8,
    pub digit3: u8,
    pub digit4: u8,
    pub current_digit: u8,
}

/// Segment bit patterns (PORTB part, PORTD part) for the glyphs 0-F, then
/// 'r', 'U' and 'L' at indices 16, 17 and 18.
pub open spec fn spec_segments(value: u8) -> (u8, u8) {
    match value {
        0 => (0x0F, 0xC0),
        1 => (0x06, 0x00),
        2 => (0x0D, 0xA0),
        3 => (0x0F, 0x20),
        4 => (0x06, 0x60),
        5 => (0x0B, 0x60),
        6 => (0x0B, 0xE0),
        7 => (0x0E, 0x00),
        8 => (0x0F, 0xE0),
        9 => (0x0F, 0x60),
        10 => (0x0E, 0xE0),
        11 => (0x03, 0xE0),
        12 => (0x09, 0xC0),
        13 => (0x07, 0xA0),
        14 => (0x09, 0xE0),
        15 => (0x08, 0xE0),
        16 => (0x00, 0xA0),
        17 => (0x07, 0xC0),
        _ => (0x01, 0xC0),
    }
}

/// The segment patterns of a glyph; values above 18 show glyph 18.
pub fn segments(value: u8) -> (r: (u8, u8))
    ensures
        r == spec_segments(value),
{
    match value {
        0 => (0x0F, 0xC0),
        1 => (0x06, 0x00),
        2 => (0x0D, 0xA0),
        3 => (0x0F, 0x20),
        4 => (0x06, 0x60),
        5 => (0x0B, 0x60),
        6 => (0x0B, 0xE0),
        7 => (0x0E, 0x00),
        8 => (0x0F, 0xE0),
        9 => (0x0F, 0x60),
        10 => (0x0E, 0xE0),
        11 => (0x03, 0xE0),
        12 => (0x09, 0xC0),
        13 => (0x07, 0xA0),
        14 => (0x09, 0xE0),
        15 => (0x08, 0xE0),
        16 => (0x00, 0xA0),
        17 => (0x07, 0xC0),
        _ => (0x01, 0xC0),
    }
}

impl FourDigitDisplay {
    /// The value stored for `digit` (1..=4).
    pub open spec fn digit_value(&self, digit: u8) -> u8 {
        if digit == 1 {
            self.digit1
        } else if digit == 2 {
            self.digit2
        } else if digit == 3 {
            self.digit3
        } else {
            self.digit4
        }
    }

    /// The port updates that show `digit`: blank all four digit selects,
    /// put the glyph on the segment lines, then select the digit.
    pub open spec fn spec_digit_updates(&self, digit: u8) -> Seq<PortUpdate> {
        if 1 <= digit <= 4 {
            let v = self.digit_value(digit);
            let seg = spec_segments(if v < 18 { v } else { 18 });
            seq![
                PortUpdate { port: Port::D, clear: 0, set: 0x1C },
                PortUpdate { port: Port::C, clear: 0, set: 0x01 },
                PortUpdate { port: Port::B, clear: 0x0F, set: seg.0 },
                PortUpdate { port: Port::D, clear: 0xE0, set: seg.1 },
                spec_select_digit(digit),
            ]
        } else {
            seq![]
        }
    }

    pub fn init() -> (r: Self)
        ensures
            r.digit1 == 0,
            r.digit2 == 0,
            r.digit3 == 0,
            r.digit4 == 0,
            r.current_digit == 1,
    {
        Self { digit1: 0, digit2: 0, digit3: 0, digit4: 0, current_digit: 1 }
    }

    /// Stores `value` for `digit`; returns false, changing nothing, when the
    /// digit is not one of 1..=4.
    pub fn set_digit(&mut self, digit: u8, value: u8) -> (r: bool)
        ensures
            r == (1 <= digit <= 4),
            final(self).current_digit == old(self).current_digit,
            forall|d: u8| 1 <= d <= 4 ==> #[trigger] final(self).digit_value(d) == if d == digit {
                value
            } else {
                old(self).digit_value(d)
            },
    {
        match digit {
            1 => self.digit1 = value,
            2 => self.digit2 = value,
            3 => self.digit3 = value,
            4 => self.digit4 = value,
            _ => return false,
        }
        true
    }

    /// Shows the current digit and moves on to the next one (4 wraps to 1).
    pub fn display_next(&mut self) -> (r: Vec<PortUpdate>)
        ensures
            r@ == old(self).spec_digit_updates(old(self).current_digit),
            final(self).current_digit == old(self).current_digit % 4 + 1,
            final(self).digit1 == old(self).digit1,
            final(self).digit2 == old(self).digit2,
            final(self).digit3 == old(self).digit3,
            final(self).digit4 == old(self).digit4,
    {
        let r = self.display_digit(self.current_digit);
        self.current_digit = self.current_digit % 4 + 1;
        r
    }

    /// The port updates that show `digit`; none for a digit outside 1..=4.
    pub fn display_digit(&self, digit: u8) -> (r: Vec<PortUpdate>)
        ensures
            r@ == self.spec_digit_updates(digit),
    {
        let value = match digit {
            1 => self.digit1,
            2 => self.digit2,
            3 => self.digit3,
            4 => self.digit4,
            _ => return Vec::new(),
        };
        let value = if value < 18 { value } else { 18 };
        let (portb_seg, portd_seg) = segments(value);
        let r = vec![
            PortUpdate { port: Port::D, clear: 0, set: 0x1C },
            PortUpdate { port: Port::C, clear: 0, set: 0x01 },
            PortUpdate { port: Port::B, clear: 0x0F, set: portb_seg },
            PortUpdate { port: Port::D, clear: 0xE0, set: portd_seg },
            select_digit(digit),
        ];
        assert(r@ =~= self.spec_digit_updates(digit));
        r
    }
}

/// The update that pulls the select line of `digit` low.
pub open spec fn spec_select_digit(digit: u8) -> PortUpdate {
    if digit == 1 {
        PortUpdate { port: Port::D, clear: 0x10, set: 0 }
    } else if digit == 2 {
        PortUpdate { port: Port::D, clear: 0x08, set: 0 }
    } else if digit == 3 {
        PortUpdate { port: Port::D, clear: 0x04, set: 0 }
    } else {
        PortUpdate { port: Port::C, clear: 0x01, set: 0 }
    }
}

fn select_digit(digit: u8) -> (r: PortUpdate)
    requires
        1 <= digit <= 4,
    ensures
        r == spec_select_digit(digit),
{
    match digit {
        1 => PortUpdate { port: Port::D, clear: 0x10, set: 0 },
        2 => PortUpdate { port: Port::D, clear: 0x08, set: 0 },
        3 => PortUpdate { port: Port::D, clear: 0x04, set: 0 },
        _ => PortUpdate { port: Port::C, clear: 0x01, set: 0 },
    }
}

/// The digit after `d` in the scan order.
pub open spec fn next_digit(d: u8) -> u8 {
    (d % 4 + 1) as u8
}

/// Whatever digit the scan is at, the next one is a real digit (1..=4), and
/// from a real digit the scan visits 1, 2, 3, 4 and comes back.
pub proof fn lemma_scan_cycle(d: u8)
    ensures
        1 <= next_digit(d) <= 4,
        1 <= d <= 4 ==> next_digit(next_digit(next_digit(next_digit(d)))) == d,
        next_digit(1) == 2 && next_digit(2) == 3 && next_digit(3) == 4 && next_digit(4) == 1,
{
}

/// Showing a real digit blanks all four digit selects first, then drives
/// the segments, and only then selects that one digit.
pub proof fn lemma_digit_updates(disp: FourDigitDisplay, digit: u8)
    requires
        1 <= digit <= 4,
    ensures
        disp.spec_digit_updates(digit).len() == 5,
        disp.spec_digit_updates(digit)[4] == spec_select_digit(digit),
        disp.spec_digit_updates(digit)[0].set & 0x1C == 0x1C,
        disp.spec_digit_updates(digit)[1].set & 0x01 == 0x01,
{
    assert(0x1Cu8 & 0x1C == 0x1C && 0x01u8 & 0x01 == 0x01) by (bit_vector);
}

/// The segment lines lit for a glyph: segments A, B, C, D on PB3, PB2, PB1,
/// PB0 and segments E, F, G on PD7, PD6, PD5.
pub open spec fn lit(a: bool, b: bool, c: bool, d: bool, e: bool, f: bool, g: bool) -> (u8, u8) {
    (
        ((if a { 8int } else { 0 }) + (if b { 4int } else { 0 }) + (if c { 2int } else { 0 }) + (if d {
            1int
        } else {
            0
        })) as u8,
        ((if e { 0x80int } else { 0 }) + (if f { 0x40int } else { 0 }) + (if g { 0x20int } else {
            0
        })) as u8,
    )
}

/// Each value shows its glyph: the hexadecimal digits 0-9, A, b, C, d, E,
/// F with their usual seven-segment shapes, then 'r', 'U' and 'L'; every
/// value above 18 shows 'L' too; and no two values of 0..=18 look alike.
pub proof fn lemma_glyphs()
    ensures
        spec_segments(0) == lit(true, true, true, true, true, true, false),
        spec_segments(1) == lit(false, true, true, false, false, false, false),
        spec_segments(2) == lit(true, true, false, true, true, false, true),
        spec_segments(3) == lit(true, true, true, true, false, false, true),
        spec_segments(4) == lit(false, true, true, false, false, true, true),
        spec_segments(5) == lit(true, false, true, true, false, true, true),
        spec_segments(6) == lit(true, false, true, true, true, true, true),
        spec_segments(7) == lit(true, true, true, false, false, false, false),
        spec_segments(8) == lit(true, true, true, true, true, true, true),
        spec_segments(9) == lit(true, true, true, true, false, true, true),
        spec_segments(10) == lit(true, true, true, false, true, true, true),
        spec_segments(11) == lit(false, false, true, true, true, true, true),
        spec_segments(12) == lit(true, false, false, true, true, true, false),
        spec_segments(13) == lit(false, true, true, true, true, false, true),
        spec_segments(14) == lit(true, false, false, true, true, true, true),
        spec_segments(15) == lit(true, false, false, false, true, true, true),
        spec_segments(16) == lit(false, false, false, false, true, false, true),
        spec_segments(17) == lit(false, true, true, true, true, true, false),
        spec_segments(18) == lit(false, false, false, true, true, true, false),
        forall|v: u8| v > 18 ==> #[trigger] spec_segments(v) == lit(false, false, false, true, true, true, false),
        forall|v: u8, w: u8| v <= 18 && w <= 18 && v != w ==> #[trigger] spec_segments(v) != #[trigger] spec_segments(w),
{
}

/// Showing digit `n` (1..=4) drives the glyph of its value (capped at 18)
/// and pulls exactly its own select line low: PD4, PD3, PD2 or PC0.
pub proof fn lemma_digit_select(disp: FourDigitDisplay, digit: u8)
    requires
        1 <= digit <= 4,
    ensures
        ({
            let u = disp.spec_digit_updates(digit);
            let v = disp.digit_value(digit);
            let seg = spec_segments(if v < 18 { v } else { 18 });
            &&& u.len() == 5
            &&& u[2] == (PortUpdate { port: Port::B, clear: 0x0F, set: seg.0 })
            &&& u[3] == (PortUpdate { port: Port::D, clear: 0xE0, set: seg.1 })
            &&& digit == 1 ==> u[4] == (PortUpdate { port: Port::D, clear: 0x10, set: 0 })
            &&& digit == 2 ==> u[4] == (PortUpdate { port: Port::D, clear: 0x08, set: 0 })
            &&& digit == 3 ==> u[4] == (PortUpdate { port: Port::D, clear: 0x04, set: 0 })
            &&& digit == 4 ==> u[4] == (PortUpdate { port: Port::C, clear: 0x01, set: 0 })
        }),
{
}

} // verus!
