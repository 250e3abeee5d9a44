use vstd::prelude::*;
use vstd::string::is_ascii;
use vstd::string::StringSliceAdditionalSpecFns;

verus! {

broadcast use vstd::string::group_string_axioms;

/// The ASCII byte of the decimal digit `d` (0..=9).
pub open spec fn digit_byte(d: nat) -> u8 {
    (48 + d) as u8
}

/// The decimal representation of `n`, most significant digit first, with
/// no leading zero ("0" for zero).
pub open spec fn decimal(n: nat) -> Seq<u8>
    decreases n,
{
    if n < 10 {
        seq![digit_byte(n)]
    } else {
        decimal(n / 10).push(digit_byte(n % 10))
    }
}

/// The digits of `n`, least significant first (empty for zero).
pub open spec fn low_digits_first(n: nat) -> Seq<u8>
    decreases n,
{
    if n == 0 {
        seq![]
    } else {
        seq![digit_byte(n % 10)] + low_digits_first(n / 10)
    }
}

/// The number that a string of ASCII decimal digits stands for.
pub open spec fn decimal_value(s: Seq<u8>) -> nat
    decreases s.len(),
{
    if s.len() == 0 {
        0
    } else {
        decimal_value(s.drop_last()) * 10 + (s.last() - 48) as nat
    }
}

/// The bytes of an ASCII text.
pub open spec fn ascii_bytes(s: Seq<char>) -> Seq<u8> {
    Seq::new(s.len(), |i: int| s[i] as u8)
}

pub open spec fn is_digit(b: u8) -> bool {
    48 <= b <= 57
}

proof fn lemma_decimal_is_reversed_digits(n: nat)
    requires
        n > 0,
    ensures
        decimal(n) =~= Seq::new(
            low_digits_first(n).len(),
            |k: int| low_digits_first(n)[low_digits_first(n).len() - 1 - k],
        ),
    decreases n,
{
    let l = low_digits_first(n);
    if n >= 10 {
        lemma_decimal_is_reversed_digits(n / 10);
        let t = low_digits_first(n / 10);
        assert(l =~= seq![digit_byte(n % 10)] + t);
    } else {
        assert(low_digits_first(n / 10) =~= Seq::<u8>::empty());
        assert(l =~= seq![digit_byte(n % 10)]);
    }
}

/// Reading back the digits that `decimal` writes gives the number again;
/// every byte is an ASCII digit, and only zero starts with '0'.
pub proof fn lemma_decimal_round_trip(n: nat)
    ensures
        decimal_value(decimal(n)) == n,
        forall|i: int| 0 <= i < decimal(n).len() ==> is_digit(#[trigger] decimal(n)[i]),
        decimal(n).len() >= 1,
        decimal(n)[0] == 48 ==> n == 0,
    decreases n,
{
    let s = decimal(n);
    if n >= 10 {
        lemma_decimal_round_trip(n / 10);
        assert(s.drop_last() =~= decimal(n / 10));
        assert(s.last() == 48 + n % 10);
        assert(decimal_value(s) == decimal_value(decimal(n / 10)) * 10 + n % 10);
        assert(s[0] == decimal(n / 10)[0]);
    } else {
        assert(s.drop_last() =~= Seq::<u8>::empty());
        assert(decimal_value(Seq::<u8>::empty()) == 0);
        assert(s.last() == 48 + n);
    }
}

/// A u32 takes at most ten decimal digits.
pub proof fn lemma_decimal_len(n: nat)
    requires
        n <= u32::MAX,
    ensures
        decimal(n).len() <= 10,
{
    assert(pow10(10) == 10000000000) by {
        reveal_with_fuel(pow10, 11);
    }
    lemma_decimal_len_bound(n, 10);
}

proof fn lemma_decimal_len_bound(n: nat, k: nat)
    requires
        1 <= k,
        n < pow10(k),
    ensures
        decimal(n).len() <= k,
    decreases k,
{
    if n >= 10 {
        if k > 1 {
            assert(pow10(k) == 10 * pow10((k - 1) as nat));
            assert(n / 10 < pow10((k - 1) as nat));
            lemma_decimal_len_bound(n / 10, (k - 1) as nat);
        } else {
            assert(pow10(1) == 10) by {
                reveal_with_fuel(pow10, 2);
            }
        }
    }
}

/// Ten to the power `k`.
pub open spec fn pow10(k: nat) -> nat
    decreases k,
{
    if k == 0 {
        1
    } else {
        10 * pow10((k - 1) as nat)
    }
}

/// The decimal digits of `n`, as the UART prints them.
pub fn write_u32(n: u32) -> (r: Vec<u8>)
    ensures
        r@ == decimal(n as nat),
{
    let mut out: Vec<u8> = Vec::new();
    if n == 0 {
        out.push(48u8);
        assert(out@ =~= decimal(0));
        return out;
    }
    let mut buf: Vec<u8> = Vec::new();
    let mut m: u32 = n;
    while m > 0
        invariant
            low_digits_first(n as nat) == buf@ + low_digits_first(m as nat),
        decreases m,
    {
        let d: u8 = (m % 10) as u8;
        buf.push(48u8 + d);
        let ghost old_buf = buf@;
        assert(low_digits_first(m as nat) == seq![digit_byte((m % 10) as nat)] + low_digits_first(
            (m / 10) as nat,
        ));
        m = m / 10;
        assert(buf@ + low_digits_first(m as nat) =~= old_buf.drop_last() + (seq![old_buf.last()]
            + low_digits_first(m as nat)));
    }
    assert(low_digits_first(0) =~= Seq::<u8>::empty());
    assert(buf@ =~= low_digits_first(n as nat));
    let len = buf.len();
    let mut i = len;
    while i > 0
        invariant
            i <= len,
            len == buf@.len(),
            out@ =~= Seq::new((len - i) as nat, |k: int| buf@[len - 1 - k]),
        decreases i,
    {
        i = i - 1;
        out.push(buf[i]);
    }
    proof {
        lemma_decimal_is_reversed_digits(n as nat);
    }
    out
}

/// Appends the bytes of an ASCII text.
pub fn push_text(out: &mut Vec<u8>, s: &str)
    requires
        is_ascii(s),
    ensures
        final(out)@ == old(out)@ + ascii_bytes(s@),
{
    let b = s.as_bytes();
    let ghost start = out@;
    proof {
        assert(s.spec_bytes() =~= ascii_bytes(s@));
    }
    let mut i: usize = 0;
    while i < b.len()
        invariant
            i <= b@.len(),
            b@ == ascii_bytes(s@),
            out@ =~= start + b@.subrange(0, i as int),
        decreases b@.len() - i,
    {
        out.push(b[i]);
        i = i + 1;
    }
    assert(b@.subrange(0, b@.len() as int) =~= b@);
}

/// Appends a byte string.
pub fn push_bytes(out: &mut Vec<u8>, s: &[u8])
    ensures
        final(out)@ == old(out)@ + s@,
{
    let ghost start = out@;
    let mut i: usize = 0;
    while i < s.len()
        invariant
            i <= s@.len(),
            out@ =~= start + s@.subrange(0, i as int),
        decreases s@.len() - i,
    {
        out.push(s[i]);
        i = i + 1;
    }
    assert(s@.subrange(0, s@.len() as int) =~= s@);
}

/// Appends the decimal digits of `n`.
fn push_u32(out: &mut Vec<u8>, n: u32)
    ensures
        final(out)@ == old(out)@ + decimal(n as nat),
{
    let d = write_u32(n);
    push_bytes(out, d.as_slice());
}

/// The line `step_period=<period> ms/phase\n`.
pub open spec fn step_period_line(period_ms: u32) -> Seq<u8> {
    ascii_bytes("step_period="@) + decimal(period_ms as nat) + ascii_bytes(" ms/phase\n"@)
}

/// The line `idle=<ms> ms\n`.
pub open spec fn idle_line(ms: u32) -> Seq<u8> {
    ascii_bytes("idle="@) + decimal(ms as nat) + ascii_bytes(" ms\n"@)
}

/// The line `idle=<ms> ms ALERT\n`.
pub open spec fn idle_alert_line(ms: u32) -> Seq<u8> {
    ascii_bytes("idle="@) + decimal(ms as nat) + ascii_bytes(" ms ALERT\n"@)
}

/// `step_period=<period> ms/phase\n`
pub fn log_step_period(period_ms: u32) -> (r: Vec<u8>)
    ensures
        r@ == step_period_line(period_ms),
{
    let mut out: Vec<u8> = Vec::new();
    proof {
        reveal_strlit("step_period=");
        reveal_strlit(" ms/phase\n");
    }
    push_text(&mut out, "step_period=");
    push_u32(&mut out, period_ms);
    push_text(&mut out, " ms/phase\n");
    out
}

/// `idle=<ms> ms\n`
pub fn log_idle(ms: u32) -> (r: Vec<u8>)
    ensures
        r@ == idle_line(ms),
{
    let mut out: Vec<u8> = Vec::new();
    proof {
        reveal_strlit("idle=");
        reveal_strlit(" ms\n");
    }
    push_text(&mut out, "idle=");
    push_u32(&mut out, ms);
    push_text(&mut out, " ms\n");
    out
}

/// `idle=<ms> ms ALERT\n`
pub fn log_idle_alert(ms: u32) -> (r: Vec<u8>)
    ensures
        r@ == idle_alert_line(ms),
{
    let mut out: Vec<u8> = Vec::new();
    proof {
        reveal_strlit("idle=");
        reveal_strlit(" ms ALERT\n");
    }
    push_text(&mut out, "idle=");
    push_u32(&mut out, ms);
    push_text(&mut out, " ms ALERT\n");
    out
}

/// `LED:<color> b=<brightness> d=<dist_cm>\n`
pub fn log_led_selection(color: &[u8], brightness: u32, dist_cm: u32) -> (r: Vec<u8>)
    ensures
        r@ == ascii_bytes("LED:"@) + color@ + ascii_bytes(" b="@) + decimal(brightness as nat)
            + ascii_bytes(" d="@) + decimal(dist_cm as nat) + ascii_bytes("\n"@),
{
    let mut out: Vec<u8> = Vec::new();
    proof {
        reveal_strlit("LED:");
        reveal_strlit(" b=");
        reveal_strlit(" d=");
        reveal_strlit("\n");
    }
    push_text(&mut out, "LED:");
    push_bytes(&mut out, color);
    push_text(&mut out, " b=");
    push_u32(&mut out, brightness);
    push_text(&mut out, " d=");
    push_u32(&mut out, dist_cm);
    push_text(&mut out, "\n");
    out
}

/// `CLOSE=<close> MED=<med>\n`
pub fn log_ranges(close: u32, med: u32) -> (r: Vec<u8>)
    ensures
        r@ == ascii_bytes("CLOSE="@) + decimal(close as nat) + ascii_bytes(" MED="@) + decimal(
            med as nat,
        ) + ascii_bytes("\n"@),
{
    let mut out: Vec<u8> = Vec::new();
    proof {
        reveal_strlit("CLOSE=");
        reveal_strlit(" MED=");
        reveal_strlit("\n");
    }
    push_text(&mut out, "CLOSE=");
    push_u32(&mut out, close);
    push_text(&mut out, " MED=");
    push_u32(&mut out, med);
    push_text(&mut out, "\n");
    out
}

/// Where a distance reading falls against the close and medium ranges.
#[derive(Clone, Copy, PartialEq, Eq, Structural, Debug)]
pub enum RangeClass {
    /// Closer than the close range.
    Close,
    /// Within the medium range.
    Medium,
    /// Beyond the medium range.
    Far,
}

/// The reading the sonar reports when the echo never rose.
pub const NO_ECHO_CM: u32 = 997;

/// The reading the sonar reports when the echo never fell.
pub const STUCK_HIGH_CM: u32 = 998;

/// The letter logged for a range class.
pub open spec fn class_letter(class: RangeClass) -> u8 {
    match class {
        RangeClass::Close => 67,
        RangeClass::Medium => 77,
        RangeClass::Far => 72,
    }
}

/// The log line of a distance reading (in whole centimetres): the two
/// sonar error readings get their own message, any other reading is
/// printed with the letter of its range class.
pub fn distance_line(cm: u32, class: RangeClass) -> (r: Vec<u8>)
    ensures
        cm == NO_ECHO_CM ==> r@ == ascii_bytes("ERR:no_echo\n"@),
        cm == STUCK_HIGH_CM ==> r@ == ascii_bytes("ERR:stuck_hi\n"@),
        cm != NO_ECHO_CM && cm != STUCK_HIGH_CM ==> r@ == decimal(cm as nat) + seq![
            32u8,
            class_letter(class),
            10u8,
        ],
{
    let mut out: Vec<u8> = Vec::new();
    if cm == NO_ECHO_CM {
        proof {
            reveal_strlit("ERR:no_echo\n");
        }
        push_text(&mut out, "ERR:no_echo\n");
    } else if cm == STUCK_HIGH_CM {
        proof {
            reveal_strlit("ERR:stuck_hi\n");
        }
        push_text(&mut out, "ERR:stuck_hi\n");
    } else {
        push_u32(&mut out, cm);
        out.push(32u8);
        let letter: u8 = match class {
            RangeClass::Close => 67u8,
            RangeClass::Medium => 77u8,
            RangeClass::Far => 72u8,
        };
        out.push(letter);
        out.push(10u8);
        assert(out@ =~= decimal(cm as nat) + seq![32u8, class_letter(class), 10u8]);
    }
    out
}

} // verus!
