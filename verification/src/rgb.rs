use vstd::prelude::*;
use crate::ports::{Port, PortUpdate};

verus! {

/// Counter steps in one colour-mixing period.
pub const CYCLE_GRANULARITY: u32 = 10;

/// The colour shown in one slot of the time-multiplexed display.
#[derive(Clone, Copy, PartialEq, Eq, Structural, Debug)]
pub enum Color {
    Red,
    Blue,
    Green,
    Blank,
}

pub open spec fn spec_next(c: Color) -> Color {
    match c {
        Color::Red => Color::Blue,
        Color::Blue => Color::Green,
        Color::Green => Color::Blank,
        Color::Blank => Color::Red,
    }
}

impl Color {
    /// The colour that follows: red, blue, green, blank, then red again.
    pub fn next(self) -> (r: Self)
        ensures
            r == spec_next(self),
    {
        match self {
            Color::Red => Color::Blue,
            Color::Blue => Color::Green,
            Color::Green => Color::Blank,
            Color::Blank => Color::Red,
        }
    }
}

/// The colour sequence repeats every four steps and visits all four colours.
pub proof fn lemma_color_cycle(c: Color)
    ensures
        spec_next(spec_next(spec_next(spec_next(c)))) == c,
        spec_next(c) != c,
        spec_next(spec_next(c)) != c,
        spec_next(spec_next(spec_next(c))) != c,
{
}

/// The PORTC bits (PC1 red, PC2 green, PC3 blue) lit for a colour.
pub open spec fn color_bits(c: Color) -> u8 {
    match c {
        Color::Red => 0x02,
        Color::Blue => 0x08,
        Color::Green => 0x04,
        Color::Blank => 0x00,
    }
}

/// An RGB LED that mixes colours by showing red, blue and green one after
/// another, each for its own number of counter steps, then staying dark
/// for the rest of the period.
pub struct NonSimultaneousRGBDisplay {
    pub red_cycle: u32,
    pub blue_cycle: u32,
    pub green_cycle: u32,
    pub current_color: Color,
    pub internal_counter: u32,
}

/// One slot check: when the counter has reached the slot's length and the
/// slot's colour is showing, move to the next colour and restart the count.
pub open spec fn slot_advance(color: Color, counter: u32, slot: Color, len: int) -> (Color, u32) {
    if counter >= len && color == slot {
        (spec_next(color), 0u32)
    } else {
        (color, counter)
    }
}

impl NonSimultaneousRGBDisplay {
    /// The length of the dark slot.
    pub open spec fn blank_len(&self) -> int {
        CYCLE_GRANULARITY - (self.red_cycle + self.blue_cycle + self.green_cycle)
    }

    /// The colour and count after the red, blue, green and blank slot checks
    /// run in that order.
    pub open spec fn advanced(&self) -> (Color, u32) {
        let s1 = slot_advance(self.current_color, self.internal_counter, Color::Red, self.red_cycle as int);
        let s2 = slot_advance(s1.0, s1.1, Color::Blue, self.blue_cycle as int);
        let s3 = slot_advance(s2.0, s2.1, Color::Green, self.green_cycle as int);
        slot_advance(s3.0, s3.1, Color::Blank, self.blank_len())
    }

    /// Half red, half blue: purple.
    pub fn purple() -> (r: Self)
        ensures
            r.red_cycle == 5,
            r.blue_cycle == 5,
            r.green_cycle == 0,
            r.current_color == Color::Red,
            r.internal_counter == 0,
    {
        Self {
            red_cycle: CYCLE_GRANULARITY / 2,
            blue_cycle: CYCLE_GRANULARITY / 2,
            green_cycle: 0,
            current_color: Color::Red,
            internal_counter: 0,
        }
    }

    /// Advances the colour slots by one counter step and returns the PORTC
    /// update that lights the current colour (PC1-PC3; other pins kept).
    pub fn display_color(&mut self) -> (r: PortUpdate)
        requires
            old(self).red_cycle + old(self).blue_cycle + old(self).green_cycle <= CYCLE_GRANULARITY,
        ensures
            final(self).current_color == old(self).advanced().0,
            final(self).internal_counter == old(self).advanced().1 + 1,
            final(self).red_cycle == old(self).red_cycle,
            final(self).blue_cycle == old(self).blue_cycle,
            final(self).green_cycle == old(self).green_cycle,
            r == (PortUpdate { port: Port::C, clear: 0x0E, set: color_bits(final(self).current_color) }),
    {
        if self.internal_counter >= self.red_cycle && self.current_color == Color::Red {
            self.current_color = self.current_color.next();
            self.internal_counter = 0;
        }
        if self.internal_counter >= self.blue_cycle && self.current_color == Color::Blue {
            self.current_color = self.current_color.next();
            self.internal_counter = 0;
        }
        if self.internal_counter >= self.green_cycle && self.current_color == Color::Green {
            self.current_color = self.current_color.next();
            self.internal_counter = 0;
        }
        if self.internal_counter >= CYCLE_GRANULARITY - (self.red_cycle + self.blue_cycle
            + self.green_cycle) && self.current_color == Color::Blank {
            self.current_color = self.current_color.next();
            self.internal_counter = 0;
        }
        let r = match self.current_color {
            Color::Red => PortUpdate { port: Port::C, clear: 0x0E, set: 0x02 },
            Color::Blue => PortUpdate { port: Port::C, clear: 0x0E, set: 0x08 },
            Color::Green => PortUpdate { port: Port::C, clear: 0x0E, set: 0x04 },
            Color::Blank => PortUpdate { port: Port::C, clear: 0x0E, set: 0x00 },
        };
        self.internal_counter += 1;
        r
    }
}

/// An RGB LED driven by software PWM: the lines of `on_mask` are lit for
/// the first `total_count` of every ten counter steps.
pub struct RGBDisplay {
    pub on_mask: u8,
    pub internal_counter: u32,
    pub total_count: u32,
}

/// The red line (PC1).
pub const RED: u8 = 0x02;

/// The green line (PC2).
pub const GREEN: u8 = 0x04;

/// The blue line (PC3).
pub const BLUE: u8 = 0x08;

/// Red and blue together.
pub const PURPLE: u8 = 0x0A;

impl RGBDisplay {
    /// Purple at half brightness.
    pub fn purple() -> (r: Self)
        ensures
            r.on_mask == PURPLE,
            r.internal_counter == 0,
            r.total_count == 5,
    {
        Self { on_mask: 0x0A, internal_counter: 0, total_count: CYCLE_GRANULARITY / 2 }
    }

    /// Sets the lit share of the period to `brightness` steps out of ten
    /// (taken modulo eleven).
    pub fn adjust_brightness(&mut self, brightness: u32)
        ensures
            final(self).total_count == brightness % 11,
            final(self).total_count <= CYCLE_GRANULARITY,
            final(self).on_mask == old(self).on_mask,
            final(self).internal_counter == old(self).internal_counter,
    {
        self.total_count = brightness % (CYCLE_GRANULARITY + 1);
    }

    pub fn turn_red(&mut self)
        ensures
            final(self).on_mask == RED,
            final(self).internal_counter == old(self).internal_counter,
            final(self).total_count == old(self).total_count,
    {
        self.on_mask = 0x02;
    }

    pub fn turn_blue(&mut self)
        ensures
            final(self).on_mask == BLUE,
            final(self).internal_counter == old(self).internal_counter,
            final(self).total_count == old(self).total_count,
    {
        self.on_mask = 0x08;
    }

    pub fn turn_green(&mut self)
        ensures
            final(self).on_mask == GREEN,
            final(self).internal_counter == old(self).internal_counter,
            final(self).total_count == old(self).total_count,
    {
        self.on_mask = 0x04;
    }

    pub fn turn_purple(&mut self)
        ensures
            final(self).on_mask == PURPLE,
            final(self).internal_counter == old(self).internal_counter,
            final(self).total_count == old(self).total_count,
    {
        self.on_mask = 0x0A;
    }

    /// Lights blue as well as whatever is already lit.
    pub fn add_blue(&mut self)
        ensures
            final(self).on_mask == old(self).on_mask | BLUE,
            final(self).internal_counter == old(self).internal_counter,
            final(self).total_count == old(self).total_count,
    {
        self.on_mask |= 0x08;
    }

    /// Whether the LED is lit at this counter value.
    pub open spec fn lit_at(&self, counter: u32) -> bool {
        counter % CYCLE_GRANULARITY < self.total_count
    }

    /// Advances the PWM counter by one step and returns the PORTC update:
    /// PC0 is kept, PC4 and PC5 are driven high, and the colour lines of the
    /// mask are lit only in the first `total_count` steps of the period.
    pub fn display_color(&mut self) -> (r: PortUpdate)
        ensures
            final(self).internal_counter == old(self).internal_counter % CYCLE_GRANULARITY + 1,
            final(self).on_mask == old(self).on_mask,
            final(self).total_count == old(self).total_count,
            r == (PortUpdate {
                port: Port::C,
                clear: 0xFE,
                set: 0x30 | (if old(self).lit_at(old(self).internal_counter) {
                    old(self).on_mask & 0x0E
                } else {
                    0
                }),
            }),
    {
        self.internal_counter %= CYCLE_GRANULARITY;
        let rgb = if self.internal_counter < self.total_count {
            self.on_mask & 0x0E
        } else {
            0x00
        };
        let r = PortUpdate { port: Port::C, clear: 0xFE, set: 0x30 | rgb };
        self.internal_counter += 1;
        r
    }
}

/// Turning red and then adding blue gives the same mask as turning purple.
pub proof fn lemma_red_plus_blue_is_purple()
    ensures
        RED | BLUE == PURPLE,
{
    assert(0x02u8 | 0x08u8 == 0x0Au8) by (bit_vector);
}

/// Over one period that starts at step zero, the LED is lit in exactly
/// `total_count` steps (for a brightness of at most ten): the first ones.
pub proof fn lemma_duty_cycle(d: RGBDisplay, counter: u32)
    requires
        d.total_count <= CYCLE_GRANULARITY,
        counter < CYCLE_GRANULARITY,
    ensures
        d.lit_at(counter) <==> counter < d.total_count,
{
}

/// The colour lines: red is PC1, green PC2, blue PC3, blank none; the
/// time-multiplexed display always rewrites exactly PC1-PC3.
pub proof fn lemma_color_lines(c: Color)
    ensures
        color_bits(Color::Red) == 0x02,
        color_bits(Color::Green) == 0x04,
        color_bits(Color::Blue) == 0x08,
        color_bits(Color::Blank) == 0x00,
        color_bits(c) & 0x0E == color_bits(c),
{
    assert(0x02u8 & 0x0E == 0x02 && 0x04u8 & 0x0E == 0x04 && 0x08u8 & 0x0E == 0x08 && 0x00u8 & 0x0E
        == 0x00) by (bit_vector);
}

/// The PWM period is ten steps: the LED is lit at counter values whose
/// remainder modulo ten is below the brightness.
pub proof fn lemma_pwm_period(d: RGBDisplay, counter: u32)
    ensures
        d.lit_at(counter) <==> counter % 10 < d.total_count,
        d.lit_at(counter) == d.lit_at((counter % 10) as u32),
{
}

} // verus!
