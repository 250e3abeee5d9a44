use vstd::prelude::*;
use vstd::string::StringSliceAdditionalSpecFns;

verus! {

broadcast use vstd::string::group_string_axioms;

/// One step of driving the HD44780 over PORTD in 4-bit mode.
#[derive(Clone, Copy, PartialEq, Eq, Structural, Debug)]
pub enum LcdOp {
    /// Write the whole of PORTD: data D4-D7 on PD4-PD7, RS on PD2, EN on PD3.
    Write(u8),
    /// Busy-wait for this many CPU cycles.
    Delay(u32),
}

/// CPU cycles per millisecond at 16 MHz.
pub const MS: u32 = 16_000;

/// Cycles of each half of an EN pulse (about 50 us).
pub const NIBBLE_HALF: u32 = 800;

/// The enable line (PD3).
pub const EN: u8 = 0x08;

/// The register-select line (PD2): set for data, clear for commands.
pub const RS: u8 = 0x04;

/// The control bits of a transfer.
pub open spec fn ctrl(rs: bool) -> u8 {
    if rs {
        RS
    } else {
        0
    }
}

/// Sending the upper four bits of `nibble`: EN high with the data, then EN
/// low with the same data (the LCD latches on the falling edge).
pub open spec fn spec_send_nibble(nibble: u8, rs: bool) -> Seq<LcdOp> {
    seq![
        LcdOp::Write((nibble & 0xF0) | ctrl(rs) | EN),
        LcdOp::Delay(NIBBLE_HALF),
        LcdOp::Write((nibble & 0xF0) | ctrl(rs)),
        LcdOp::Delay(NIBBLE_HALF),
    ]
}

/// Sending a whole byte: the high nibble, then the low nibble.
pub open spec fn spec_send_byte(b: u8, rs: bool) -> Seq<LcdOp> {
    spec_send_nibble(b, rs) + spec_send_nibble(b << 4, rs)
}

/// Sending each byte of a text as character data, in order.
pub open spec fn spec_send_chars(bytes: Seq<u8>) -> Seq<LcdOp>
    decreases bytes.len(),
{
    if bytes.len() == 0 {
        seq![]
    } else {
        spec_send_chars(bytes.drop_last()) + spec_send_byte(bytes.last(), true)
    }
}

/// The byte the LCD assembles from the data lines of the two falling edges.
pub open spec fn latched(high_write: u8, low_write: u8) -> u8 {
    (high_write & 0xF0) | (low_write >> 4)
}

/// Whether a write raises EN.
pub open spec fn en_high(w: u8) -> bool {
    w & EN == EN
}

/// Whether a write selects the data register.
pub open spec fn rs_high(w: u8) -> bool {
    w & RS == RS
}

fn send_nibble(out: &mut Vec<LcdOp>, nibble: u8, rs: bool)
    ensures
        final(out)@ == old(out)@ + spec_send_nibble(nibble, rs),
{
    let ctrl: u8 = if rs {
        RS
    } else {
        0
    };
    out.push(LcdOp::Write((nibble & 0xF0) | ctrl | EN));
    out.push(LcdOp::Delay(NIBBLE_HALF));
    out.push(LcdOp::Write((nibble & 0xF0) | ctrl));
    out.push(LcdOp::Delay(NIBBLE_HALF));
    assert(out@ =~= old(out)@ + spec_send_nibble(nibble, rs));
}

fn send_byte(out: &mut Vec<LcdOp>, b: u8, rs: bool)
    ensures
        final(out)@ == old(out)@ + spec_send_byte(b, rs),
{
    send_nibble(out, b, rs);
    send_nibble(out, b << 4, rs);
    assert(final(out)@ =~= old(out)@ + spec_send_byte(b, rs));
}

/// The operations that send an instruction byte.
pub fn send_command(cmd: u8) -> (r: Vec<LcdOp>)
    ensures
        r@ == spec_send_byte(cmd, false),
{
    let mut out: Vec<LcdOp> = Vec::new();
    send_byte(&mut out, cmd, false);
    assert(out@ =~= spec_send_byte(cmd, false));
    out
}

/// The operations that write one character at the cursor.
pub fn write_char(ch: u8) -> (r: Vec<LcdOp>)
    ensures
        r@ == spec_send_byte(ch, true),
{
    let mut out: Vec<LcdOp> = Vec::new();
    send_byte(&mut out, ch, true);
    assert(out@ =~= spec_send_byte(ch, true));
    out
}

/// The operations that write each byte of a text at the cursor.
pub fn write_str(s: &str) -> (r: Vec<LcdOp>)
    ensures
        r@ == spec_send_chars(s.spec_bytes()),
{
    let b = s.as_bytes();
    let mut out: Vec<LcdOp> = Vec::new();
    let mut i: usize = 0;
    while i < b.len()
        invariant
            i <= b@.len(),
            b@ == s.spec_bytes(),
            out@ == spec_send_chars(b@.subrange(0, i as int)),
        decreases b@.len() - i,
    {
        send_byte(&mut out, b[i], true);
        assert(b@.subrange(0, i + 1).drop_last() =~= b@.subrange(0, i as int));
        i = i + 1;
    }
    assert(b@.subrange(0, b@.len() as int) =~= b@);
    out
}

/// Clear display and home the cursor, then wait 5 ms for it to finish.
pub fn clear() -> (r: Vec<LcdOp>)
    ensures
        r@ == spec_send_byte(0x01, false).push(LcdOp::Delay((5 * MS) as u32)),
{
    let mut out = send_command(0x01);
    out.push(LcdOp::Delay(5 * MS));
    out
}

/// The DDRAM address command for `pos` on `line` (0 or 1).
pub open spec fn spec_goto_cmd(line: u8, pos: u8) -> u8 {
    0x80 | (line << 6) | pos
}

/// Move the cursor to `pos` on `line`.
pub fn goto_xy(line: u8, pos: u8) -> (r: Vec<LcdOp>)
    ensures
        r@ == spec_send_byte(spec_goto_cmd(line, pos), false),
{
    send_command(0x80 | (line << 6) | pos)
}

/// A delay of `ms` milliseconds.
pub fn delay_ms(ms: u32) -> (r: LcdOp)
    requires
        MS * ms <= u32::MAX,
    ensures
        r == LcdOp::Delay((MS * ms) as u32),
{
    LcdOp::Delay(MS * ms)
}

/// The HD44780 power-on sequence for 4-bit mode: wait for power, three
/// soft resets, switch to 4 bits, then function set (2 lines, 5x7), display
/// off, clear, entry mode (increment) and display on without cursor.
pub open spec fn spec_init() -> Seq<LcdOp> {
    seq![LcdOp::Delay((50 * MS) as u32)] + spec_send_nibble(0x30, false) + seq![LcdOp::Delay((5 * MS) as u32)]
        + spec_send_nibble(0x30, false) + seq![LcdOp::Delay(MS)] + spec_send_nibble(0x30, false)
        + seq![LcdOp::Delay(MS)] + spec_send_nibble(0x20, false) + seq![LcdOp::Delay(MS)]
        + spec_send_byte(0x28, false) + seq![LcdOp::Delay(MS)] + spec_send_byte(0x08, false)
        + seq![LcdOp::Delay(MS)] + spec_send_byte(0x01, false) + seq![LcdOp::Delay((5 * MS) as u32)]
        + spec_send_byte(0x06, false) + seq![LcdOp::Delay(MS)] + spec_send_byte(0x0C, false)
        + seq![LcdOp::Delay(MS)]
}

/// The full power-on initialisation.
pub fn init() -> (r: Vec<LcdOp>)
    ensures
        r@ == spec_init(),
{
    let mut out: Vec<LcdOp> = Vec::new();
    out.push(LcdOp::Delay(50 * MS));
    send_nibble(&mut out, 0x30, false);
    out.push(LcdOp::Delay(5 * MS));
    send_nibble(&mut out, 0x30, false);
    out.push(LcdOp::Delay(MS));
    send_nibble(&mut out, 0x30, false);
    out.push(LcdOp::Delay(MS));
    send_nibble(&mut out, 0x20, false);
    out.push(LcdOp::Delay(MS));
    send_byte(&mut out, 0x28, false);
    out.push(LcdOp::Delay(MS));
    send_byte(&mut out, 0x08, false);
    out.push(LcdOp::Delay(MS));
    send_byte(&mut out, 0x01, false);
    out.push(LcdOp::Delay(5 * MS));
    send_byte(&mut out, 0x06, false);
    out.push(LcdOp::Delay(MS));
    send_byte(&mut out, 0x0C, false);
    out.push(LcdOp::Delay(MS));
    assert(out@ =~= spec_init());
    out
}

proof fn lemma_nibbles(b: u8, c: u8)
    by (bit_vector)
    requires
        c == 0 || c == 4,
    ensures
        (((b & 0xF0) | c) & 0xF0) | ((((b << 4) & 0xF0) | c) >> 4) == b,
        ((b & 0xF0) | c | 8) & 8 == 8,
        ((b & 0xF0) | c) & 8 == 0,
        (((b << 4) & 0xF0) | c | 8) & 8 == 8,
        (((b << 4) & 0xF0) | c) & 8 == 0,
        ((b & 0xF0) | c | 8) & 4 == c,
        ((b & 0xF0) | c) & 4 == c,
        (((b << 4) & 0xF0) | c | 8) & 4 == c,
        (((b << 4) & 0xF0) | c) & 4 == c,
        ((b & 0xF0) | c | 8) & 0xF0 == ((b & 0xF0) | c) & 0xF0,
        (((b << 4) & 0xF0) | c | 8) >> 4 == (((b << 4) & 0xF0) | c) >> 4,
{
}

/// Each byte sent to the LCD arrives whole: the operations raise EN and
/// drop it for each nibble, the data lines at the two falling edges carry
/// the byte (high nibble first), the lines do not change while EN is high,
/// and RS tells data (characters) from instructions (commands) throughout.
pub proof fn lemma_byte_transfer(b: u8, rs: bool)
    ensures
        ({
            let ops = spec_send_byte(b, rs);
            &&& ops.len() == 8
            &&& ops[0] is Write && ops[2] is Write && ops[4] is Write && ops[6] is Write
            &&& ops[1] == LcdOp::Delay(NIBBLE_HALF) && ops[3] == LcdOp::Delay(NIBBLE_HALF)
            &&& ops[5] == LcdOp::Delay(NIBBLE_HALF) && ops[7] == LcdOp::Delay(NIBBLE_HALF)
            &&& en_high(ops[0]->Write_0) && !en_high(ops[2]->Write_0)
            &&& en_high(ops[4]->Write_0) && !en_high(ops[6]->Write_0)
            &&& ops[0]->Write_0 & 0xF0 == ops[2]->Write_0 & 0xF0
            &&& ops[4]->Write_0 >> 4 == ops[6]->Write_0 >> 4
            &&& latched(ops[2]->Write_0, ops[6]->Write_0) == b
            &&& rs_high(ops[0]->Write_0) == rs && rs_high(ops[2]->Write_0) == rs
            &&& rs_high(ops[4]->Write_0) == rs && rs_high(ops[6]->Write_0) == rs
        }),
{
    lemma_nibbles(b, ctrl(rs));
}

/// A command never selects the data register and a character always does.
pub proof fn lemma_command_vs_char(cmd: u8, ch: u8)
    ensures
        forall|i: int|
            0 <= i < 8 && spec_send_byte(cmd, false)[i] is Write ==> !rs_high(
                #[trigger] spec_send_byte(cmd, false)[i]->Write_0,
            ),
        forall|i: int|
            0 <= i < 8 && spec_send_byte(ch, true)[i] is Write ==> rs_high(
                #[trigger] spec_send_byte(ch, true)[i]->Write_0,
            ),
{
    lemma_nibbles(cmd, 0);
    lemma_nibbles(ch, 4);
    assert(spec_send_byte(cmd, false).len() == 8);
    assert(spec_send_byte(ch, true).len() == 8);
}

/// The byte a command or character transfer starting at `b` in `ops`
/// delivers: the data lines at its two EN falling edges.
pub open spec fn delivered_at(ops: Seq<LcdOp>, b: int) -> u8 {
    (ops[b + 2]->Write_0 & 0xF0) | (ops[b + 6]->Write_0 >> 4)
}

proof fn lemma_byte_at(ops: Seq<LcdOp>, b: int, v: u8)
    requires
        0 <= b,
        b + 8 <= ops.len(),
        ops.subrange(b, b + 8) == spec_send_byte(v, false),
    ensures
        ops[b + 2] is Write && ops[b + 6] is Write,
        delivered_at(ops, b) == v,
        ops[b + 2]->Write_0 & 0x04 == 0,
        ops[b + 6]->Write_0 & 0x04 == 0,
{
    lemma_byte_transfer(v, false);
    lemma_nibbles(v, 0);
    let t = spec_send_byte(v, false);
    assert(ops[b + 2] == t[2]);
    assert(ops[b + 6] == t[6]);
}

/// The power-on sequence is the HD44780 4-bit initialisation: a 50 ms
/// wait, the nibbles 3, 3, 3 (soft resets) and 2 (4-bit mode) on the data
/// lines, then the instructions function set 0x28, display off 0x08, clear
/// 0x01, entry mode 0x06 and, last, display on 0x0C, all with RS low; it
/// ends with a 1 ms wait, leaving the display switched on.
pub proof fn lemma_init_sequence()
    ensures
        spec_init().len() == 66,
        spec_init()[0] == LcdOp::Delay(800_000),
        spec_init()[3] is Write && spec_init()[3]->Write_0 == 0x30,
        spec_init()[8] is Write && spec_init()[8]->Write_0 == 0x30,
        spec_init()[13] is Write && spec_init()[13]->Write_0 == 0x30,
        spec_init()[18] is Write && spec_init()[18]->Write_0 == 0x20,
        delivered_at(spec_init(), 21) == 0x28,
        delivered_at(spec_init(), 30) == 0x08,
        delivered_at(spec_init(), 39) == 0x01,
        delivered_at(spec_init(), 48) == 0x06,
        delivered_at(spec_init(), 57) == 0x0C,
        forall|b: int|
            #![trigger delivered_at(spec_init(), b)]
            b == 21 || b == 30 || b == 39 || b == 48 || b == 57 ==> spec_init()[b + 2]->Write_0
                & 0x04 == 0 && spec_init()[b + 6]->Write_0 & 0x04 == 0,
        spec_init()[65] == LcdOp::Delay(16_000),
{
    let ops = spec_init();
    assert(ops.subrange(21, 29) =~= spec_send_byte(0x28, false));
    assert(ops.subrange(30, 38) =~= spec_send_byte(0x08, false));
    assert(ops.subrange(39, 47) =~= spec_send_byte(0x01, false));
    assert(ops.subrange(48, 56) =~= spec_send_byte(0x06, false));
    assert(ops.subrange(57, 65) =~= spec_send_byte(0x0C, false));
    lemma_byte_at(ops, 21, 0x28);
    lemma_byte_at(ops, 30, 0x08);
    lemma_byte_at(ops, 39, 0x01);
    lemma_byte_at(ops, 48, 0x06);
    lemma_byte_at(ops, 57, 0x0C);
    assert((0x30u8 & 0xF0u8) | 0u8 == 0x30u8 && (0x20u8 & 0xF0u8) | 0u8 == 0x20u8) by (bit_vector);
}

/// Moving the cursor to position `pos` (0..64) of line `line` (0 or 1)
/// sends the instruction "set DDRAM address" 0x80 + 64 * line + pos.
pub proof fn lemma_goto_address(line: u8, pos: u8)
    requires
        line <= 1,
        pos < 64,
    ensures
        spec_goto_cmd(line, pos) == 0x80 + 64 * line + pos,
{
    assert(line <= 1 && pos < 64 ==> 0x80 | (line << 6) | pos == 0x80 + 64 * line + pos)
        by (bit_vector);
}

} // verus!
