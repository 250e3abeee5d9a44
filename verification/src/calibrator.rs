use vstd::prelude::*;
use crate::display::FourDigitDisplay;

verus! {

/// Polls (200 ms each) the left button must be held to start calibrating.
pub const TICK_COUNT_MAXIMUM: u32 = 10;

/// The shared settings the calibrator adjusts.
pub struct Calibration {
    /// Whether calibration mode is on.
    pub active: bool,
    /// Readings below this are close.
    pub close_range: u32,
    /// Readings up to this are medium.
    pub med_range: u32,
}

/// The close range at power-on.
pub const CLOSE_RANGE_DEFAULT: u32 = 10;

/// The medium range at power-on.
pub const MED_RANGE_DEFAULT: u32 = 15;

impl Calibration {
    /// Not calibrating, with the power-on ranges.
    pub fn new() -> (r: Self)
        ensures
            !r.active,
            r.close_range == CLOSE_RANGE_DEFAULT,
            r.med_range == MED_RANGE_DEFAULT,
    {
        Calibration { active: false, close_range: CLOSE_RANGE_DEFAULT, med_range: MED_RANGE_DEFAULT }
    }
}

/// Holding the left button (PC5, active low) for two seconds enters
/// calibration mode; while in it, the ranges follow the live distance and
/// the display reads "CAL"; releasing and pressing the button again leaves.
pub struct Calibrator {
    pub tick_count: u32,
    /// Whether the button was released since calibration began.
    pub released: bool,
}

/// Whether the left button is held, from PINC.
pub open spec fn left_held(pinc: u8) -> bool {
    pinc & 0x20 == 0
}

/// The calibrator state and mode flag after one poll.
pub open spec fn calibrator_next(tick: u32, released: bool, active: bool, left: bool) -> (
    u32,
    bool,
    bool,
) {
    if active {
        if !left {
            (tick, true, true)
        } else if released {
            (0, false, false)
        } else {
            (tick, released, true)
        }
    } else {
        let t = if left {
            (tick + 1) as u32
        } else {
            0u32
        };
        if t >= TICK_COUNT_MAXIMUM {
            (0, false, true)
        } else {
            (t, released, false)
        }
    }
}

impl Calibrator {
    pub fn init() -> (r: Self)
        ensures
            r.tick_count == 0,
            !r.released,
    {
        Self { tick_count: 0, released: false }
    }

    /// One 200 ms poll, with the buttons read as `pinc` and the sonar's
    /// distance in whole centimetres as `dist`.
    pub fn calibrator_loop(
        &mut self,
        pinc: u8,
        dist: u32,
        cal: &mut Calibration,
        display: &mut FourDigitDisplay,
    )
        requires
            old(cal).active ==> dist + dist / 2 <= u32::MAX,
            !old(cal).active && left_held(pinc) ==> old(self).tick_count < u32::MAX,
        ensures
            (final(self).tick_count, final(self).released, final(cal).active) == calibrator_next(
                old(self).tick_count,
                old(self).released,
                old(cal).active,
                left_held(pinc),
            ),
            old(cal).active ==> final(cal).close_range == dist && final(cal).med_range == dist
                + dist / 2 && final(display).digit4 == 12 && final(display).digit3 == 10
                && final(display).digit2 == 18 && final(display).digit1 == 11
                && final(display).current_digit == old(display).current_digit,
            !old(cal).active ==> final(cal).close_range == old(cal).close_range
                && final(cal).med_range == old(cal).med_range && *final(display) == *old(display),
    {
        let left = (pinc & 0x20) == 0;
        if cal.active {
            cal.close_range = dist;
            cal.med_range = dist + dist / 2;
            display.set_digit(4, 12);
            assert(display.digit_value(4) == 12);
            display.set_digit(3, 10);
            assert(display.digit_value(4) == 12 && display.digit_value(3) == 10);
            display.set_digit(2, 18);
            assert(display.digit_value(4) == 12 && display.digit_value(3) == 10
                && display.digit_value(2) == 18);
            display.set_digit(1, 11);
            assert(display.digit_value(4) == 12 && display.digit_value(3) == 10
                && display.digit_value(2) == 18 && display.digit_value(1) == 11);
            if !left {
                self.released = true;
            } else if self.released {
                cal.active = false;
                self.tick_count = 0;
                self.released = false;
            }
        } else {
            if left {
                self.tick_count += 1;
            } else {
                self.tick_count = 0;
            }
            if self.tick_count >= TICK_COUNT_MAXIMUM {
                cal.active = true;
                self.tick_count = 0;
                self.released = false;
            }
        }
    }
}

/// The calibrator after `k` polls with the button held throughout.
pub open spec fn held_polls(tick: u32, released: bool, active: bool, k: nat) -> (u32, bool, bool)
    decreases k,
{
    if k == 0 {
        (tick, released, active)
    } else {
        let s = held_polls(tick, released, active, (k - 1) as nat);
        calibrator_next(s.0, s.1, s.2, true)
    }
}

/// From rest, calibration starts on exactly the tenth poll of a held
/// button; until then the held polls are counted.
pub proof fn lemma_enter_after_two_seconds(released: bool, k: nat)
    requires
        k <= TICK_COUNT_MAXIMUM,
    ensures
        k < TICK_COUNT_MAXIMUM ==> held_polls(0, released, false, k) == (k as u32, released, false),
        k == TICK_COUNT_MAXIMUM ==> held_polls(0, released, false, k) == (0u32, false, true),
    decreases k,
{
    if k > 0 {
        lemma_enter_after_two_seconds(released, (k - 1) as nat);
    }
}

/// Releasing the button while not calibrating restarts the count.
pub proof fn lemma_release_resets(tick: u32, released: bool)
    ensures
        calibrator_next(tick, released, false, false) == (0u32, released, false),
{
}

/// Calibration ends only on a press after a release: a button still held
/// from entering keeps it on, releasing it keeps it on, and the next press
/// turns it off.
pub proof fn lemma_leave_needs_release(tick: u32)
    ensures
        calibrator_next(tick, false, true, true) == (tick, false, true),
        calibrator_next(tick, false, true, false) == (tick, true, true),
        calibrator_next(tick, true, true, true) == (0u32, false, false),
{
}

/// Calibration starts on the tenth consecutive held poll (two seconds of
/// 200 ms polls) and not before; while calibrating the ranges follow the
/// distance: close = d, medium = d + d / 2.
pub proof fn lemma_two_second_hold(released: bool, k: nat)
    requires
        k <= 10,
    ensures
        k < 10 ==> held_polls(0, released, false, k) == (k as u32, released, false),
        held_polls(0, released, false, 10) == (0u32, false, true),
    decreases k,
{
    lemma_enter_after_two_seconds(released, k);
    lemma_enter_after_two_seconds(released, 10);
}

} // verus!
