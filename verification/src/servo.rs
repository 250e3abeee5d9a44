use vstd::prelude::*;

verus! {

/// OCR1A for the centre position (1.5 ms pulse at 0.5 us per count).
pub const SERVO_CENTER: u16 = 2999;

/// Counts the pulse shortens by at full left deflection.
pub const SERVO_LEFT: u16 = 2000;

/// Counts the pulse lengthens by at full right deflection.
pub const SERVO_RIGHT: u16 = 2000;

/// TOP of Timer1 (ICR1): a 20 ms, 50 Hz frame.
pub const SERVO_TOP: u16 = 39999;

/// The OCR1A compare value for a joystick reading: 512 is the centre;
/// below it the pulse shortens in proportion (down to 2000 counts less at
/// 0), above it it lengthens in proportion (2000 counts more at 1023),
/// saturating at the ends of the u16 range and never past the frame TOP.
pub open spec fn spec_servo_ocr(adc: u16) -> u16 {
    if adc <= 512 {
        let d = (((512 - adc) * (SERVO_LEFT as int)) / 512) as u16;
        if d <= SERVO_CENTER {
            (SERVO_CENTER - d) as u16
        } else {
            0
        }
    } else {
        let d = #[verifier::truncate] ((((adc - 512) * (SERVO_RIGHT as int)) / 511) as u16);
        let s = if SERVO_CENTER + d <= u16::MAX {
            (SERVO_CENTER + d) as u16
        } else {
            u16::MAX
        };
        if s < SERVO_TOP {
            s
        } else {
            SERVO_TOP
        }
    }
}

/// The compare value (pulse width) for a joystick reading.
pub fn set_from_adc(adc: u16) -> (r: u16)
    ensures
        r == spec_servo_ocr(adc),
{
    if adc <= 512 {
        let x: u32 = (512 - adc) as u32;
        proof {
            lemma_scaled_bound(x as int, 512);
        }
        let d = (x * SERVO_LEFT as u32 / 512) as u16;
        SERVO_CENTER.saturating_sub(d)
    } else {
        let x: u32 = (adc - 512) as u32;
        assert(x * 2000 <= 65535 * 2000) by (nonlinear_arith)
            requires
                x <= 65535,
        ;
        let d = #[verifier::truncate] ((x * SERVO_RIGHT as u32 / 511) as u16);
        let s = SERVO_CENTER.saturating_add(d);
        if s < SERVO_TOP {
            s
        } else {
            SERVO_TOP
        }
    }
}

proof fn lemma_scaled_bound(x: int, k: int)
    by (nonlinear_arith)
    requires
        0 <= x <= k,
        k > 0,
    ensures
        0 <= x * 2000 / k <= 2000,
{
}

proof fn lemma_scaled_monotone(x: int, y: int, k: int)
    by (nonlinear_arith)
    requires
        0 <= x <= y,
        k > 0,
    ensures
        x * 2000 / k <= y * 2000 / k,
{
}

/// For a 10-bit ADC reading the pulse stays within 999..=4999 counts
/// (0.5 ms to 2.5 ms), the centre reading gives the centre pulse, and a
/// larger reading never gives a shorter pulse.
pub proof fn lemma_servo_range(adc: u16, other: u16)
    requires
        adc <= 1023,
        other <= 1023,
    ensures
        999 <= spec_servo_ocr(adc) <= 4999,
        spec_servo_ocr(512) == SERVO_CENTER,
        adc <= other ==> spec_servo_ocr(adc) <= spec_servo_ocr(other),
{
    if adc <= 512 {
        lemma_scaled_bound(512 - adc, 512);
    } else {
        lemma_scaled_bound(adc - 512, 511);
    }
    if other <= 512 {
        lemma_scaled_bound(512 - other, 512);
    } else {
        lemma_scaled_bound(other - 512, 511);
    }
    if adc <= other {
        if other <= 512 {
            lemma_scaled_monotone(512 - other, 512 - adc, 512);
        } else if adc > 512 {
            lemma_scaled_monotone(adc - 512, other - 512, 511);
        }
    }
}

/// The servo's end points and centre for a 10-bit reading: 0 gives 999
/// (0.5 ms), 512 gives 2999 (1.5 ms), 1023 gives 4999 (2.5 ms); below the
/// centre the pulse shortens by 2000 * (512 - adc) / 512 counts, above it
/// lengthens by 2000 * (adc - 512) / 511 counts, rounded down.
pub proof fn lemma_servo_points(adc: u16)
    requires
        adc <= 1023,
    ensures
        spec_servo_ocr(0) == 999,
        spec_servo_ocr(512) == 2999,
        spec_servo_ocr(1023) == 4999,
        adc <= 512 ==> spec_servo_ocr(adc) == 2999 - (512 - adc) * 2000 / 512,
        adc > 512 ==> spec_servo_ocr(adc) == 2999 + (adc - 512) * 2000 / 511,
{
    if adc <= 512 {
        lemma_scaled_bound(512 - adc, 512);
    } else {
        lemma_scaled_bound(adc - 512, 511);
    }
}

} // verus!
