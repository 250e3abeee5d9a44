use vstd::prelude::*;
use crate::ports::{Port, PortUpdate};

verus! {

/// The coil lines IN1-IN4 on PB5-PB2.
pub const STEPPER_MASK: u8 = 0x3C;

/// Shortest step period (ms per phase) the buttons can select.
pub const STEP_PERIOD_MIN: u32 = 5;

/// Longest step period (ms per phase) the buttons can select.
pub const STEP_PERIOD_MAX: u32 = 30;

/// How much one button press changes the step period.
pub const STEP_PERIOD_DELTA: u32 = 5;

/// The step period at power-on.
pub const STEP_PERIOD_DEFAULT: u32 = 15;

/// The half-step coil pattern of each of the eight phases: IN1, IN1+IN2,
/// IN2, IN2+IN3, IN3, IN3+IN4, IN4, IN4+IN1.
pub open spec fn spec_step_pattern(idx: u8) -> u8 {
    match idx {
        0 => 0x20,
        1 => 0x30,
        2 => 0x10,
        3 => 0x18,
        4 => 0x08,
        5 => 0x0C,
        6 => 0x04,
        _ => 0x24,
    }
}

/// The coil pattern of a phase.
pub fn step_pattern(idx: u8) -> (r: u8)
    requires
        idx < 8,
    ensures
        r == spec_step_pattern(idx),
{
    match idx {
        0 => 0x20,
        1 => 0x30,
        2 => 0x10,
        3 => 0x18,
        4 => 0x08,
        5 => 0x0C,
        6 => 0x04,
        _ => 0x24,
    }
}

/// A four-coil stepper driven in half steps.
pub struct Stepper {
    /// The current phase (0..8).
    pub step_idx: u8,
}

/// The PORTB update that energises the coils of a phase.
pub open spec fn phase_update(idx: u8) -> PortUpdate {
    PortUpdate { port: Port::B, clear: STEPPER_MASK, set: spec_step_pattern(idx) }
}

impl Stepper {
    /// A stepper at phase zero.
    pub fn new() -> (r: Self)
        ensures
            r.step_idx == 0,
    {
        Stepper { step_idx: 0 }
    }

    fn apply_step(&self) -> (r: PortUpdate)
        requires
            self.step_idx < 8,
        ensures
            r == phase_update(self.step_idx),
    {
        PortUpdate { port: Port::B, clear: STEPPER_MASK, set: step_pattern(self.step_idx) }
    }

    /// One half step counter-clockwise: the next phase.
    pub fn step_ccw(&mut self) -> (r: PortUpdate)
        requires
            old(self).step_idx < 255,
        ensures
            final(self).step_idx == (old(self).step_idx + 1) % 8,
            r == phase_update(final(self).step_idx),
    {
        self.step_idx = (self.step_idx + 1) % 8;
        self.apply_step()
    }

    /// One half step clockwise: the previous phase.
    pub fn step_cw(&mut self) -> (r: PortUpdate)
        requires
            old(self).step_idx <= 248,
        ensures
            final(self).step_idx == (old(self).step_idx + 7) % 8,
            r == phase_update(final(self).step_idx),
    {
        self.step_idx = (self.step_idx + 7) % 8;
        self.apply_step()
    }
}

/// De-energises all four coils.
pub fn stop() -> (r: PortUpdate)
    ensures
        r == (PortUpdate { port: Port::B, clear: STEPPER_MASK, set: 0 }),
{
    PortUpdate { port: Port::B, clear: STEPPER_MASK, set: 0 }
}

/// A clockwise step undoes a counter-clockwise one, and the other way round.
pub proof fn lemma_steps_undo(idx: u8)
    requires
        idx < 8,
    ensures
        ((idx + 1) % 8 + 7) % 8 == idx,
        ((idx + 7) % 8 + 1) % 8 == idx,
{
}

/// Eight steps in one direction come back to the same phase; every phase
/// drives only coil lines, and neighbouring phases differ in one coil.
pub proof fn lemma_phase_patterns(idx: u8)
    requires
        idx < 8,
    ensures
        spec_step_pattern(idx) & STEPPER_MASK == spec_step_pattern(idx),
        spec_step_pattern(idx) != 0,
        one_coil_apart(spec_step_pattern(idx), spec_step_pattern(((idx + 1) % 8) as u8)),
{
    assert(spec_step_pattern(idx) & STEPPER_MASK == spec_step_pattern(idx)) by {
        assert(0x20u8 & 0x3C == 0x20 && 0x30u8 & 0x3C == 0x30 && 0x10u8 & 0x3C == 0x10 && 0x18u8
            & 0x3C == 0x18 && 0x08u8 & 0x3C == 0x08 && 0x0Cu8 & 0x3C == 0x0C && 0x04u8 & 0x3C
            == 0x04 && 0x24u8 & 0x3C == 0x24) by (bit_vector);
    }
    assert(one_coil_apart(0x20, 0x30) && one_coil_apart(0x30, 0x10) && one_coil_apart(0x10, 0x18)
        && one_coil_apart(0x18, 0x08) && one_coil_apart(0x08, 0x0C) && one_coil_apart(0x0C, 0x04)
        && one_coil_apart(0x04, 0x24) && one_coil_apart(0x24, 0x20)) by (bit_vector);
}

/// Two patterns differ in exactly one coil line.
pub open spec fn one_coil_apart(a: u8, b: u8) -> bool {
    let x = a ^ b;
    x == 0x04 || x == 0x08 || x == 0x10 || x == 0x20
}

/// The eight half-step phases energise IN1, IN1+IN2, IN2, IN2+IN3, IN3,
/// IN3+IN4, IN4, IN4+IN1 (IN1-IN4 on PB5-PB2), and every phase update
/// touches only those four lines.
pub proof fn lemma_phase_table(idx: u8)
    requires
        idx < 8,
    ensures
        spec_step_pattern(0) == 0x20 && spec_step_pattern(1) == 0x30 && spec_step_pattern(2) == 0x10
            && spec_step_pattern(3) == 0x18 && spec_step_pattern(4) == 0x08 && spec_step_pattern(5)
            == 0x0C && spec_step_pattern(6) == 0x04 && spec_step_pattern(7) == 0x24,
        phase_update(idx).port == Port::B,
        phase_update(idx).clear == 0x3C,
        phase_update(idx).set & 0x3C == phase_update(idx).set,
{
    lemma_phase_patterns(idx);
}

} // verus!
