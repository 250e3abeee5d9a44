use vstd::prelude::*;

verus! {

/// Two push buttons that widen (PC4) or narrow (PC5) the distance ranges by
/// one centimetre per press. Both are active low.
pub struct ButtonPress {
    pub close_range: u32,
    pub med_range: u32,
    /// Whether the previous poll acted on a press.
    pub prev_tick: bool,
    pub prev_tick_count: u32,
}

/// Whether the widen button (PC4) is held, from PINC.
pub open spec fn increase_held(pinc: u8) -> bool {
    pinc & 0x10 == 0
}

/// Whether the narrow button (PC5) is held, from PINC.
pub open spec fn decrease_held(pinc: u8) -> bool {
    pinc & 0x20 == 0
}

impl ButtonPress {
    /// Starts from the current close and medium ranges.
    pub fn init(close_range: u32, med_range: u32) -> (r: Self)
        ensures
            r.close_range == close_range,
            r.med_range == med_range,
            !r.prev_tick,
            r.prev_tick_count == 0,
    {
        Self { close_range, med_range, prev_tick: false, prev_tick_count: 0 }
    }

    /// The state and result of a poll with the buttons read as `pinc`.
    pub open spec fn polled(&self, pinc: u8) -> (ButtonPress, u8) {
        if increase_held(pinc) && !self.prev_tick {
            (
                ButtonPress {
                    close_range: (self.close_range + 1) as u32,
                    med_range: (self.med_range + 1) as u32,
                    prev_tick: true,
                    ..*self
                },
                2,
            )
        } else if decrease_held(pinc) && !self.prev_tick {
            (
                ButtonPress {
                    close_range: (self.close_range - 1) as u32,
                    med_range: (self.med_range - 1) as u32,
                    prev_tick: true,
                    ..*self
                },
                1,
            )
        } else {
            (ButtonPress { prev_tick: false, ..*self }, 0)
        }
    }

    /// Whether a poll with the buttons read as `pinc` keeps the ranges
    /// within u32.
    pub open spec fn poll_in_range(&self, pinc: u8) -> bool {
        &&& increase_held(pinc) && !self.prev_tick ==> self.close_range < u32::MAX
            && self.med_range < u32::MAX
        &&& !increase_held(pinc) && decrease_held(pinc) && !self.prev_tick ==> self.close_range > 0
            && self.med_range > 0
    }

    /// Polls the buttons (from PINC). A press acted on in the previous poll
    /// is not acted on again: the poll after it only clears the flag.
    /// Returns 2 when the ranges widened, 1 when they narrowed, 0 otherwise;
    /// widening wins when both buttons are held.
    pub fn detect_and_handle_press(&mut self, pinc: u8) -> (r: u8)
        requires
            old(self).poll_in_range(pinc),
        ensures
            (*final(self), r) == old(self).polled(pinc),
    {
        let increase = (pinc & 0x10) == 0;
        let decrease = (pinc & 0x20) == 0;
        if increase && !self.prev_tick {
            self.close_range += 1;
            self.med_range += 1;
            self.prev_tick = true;
            return 2;
        }
        if decrease && !self.prev_tick {
            self.close_range -= 1;
            self.med_range -= 1;
            self.prev_tick = true;
            return 1;
        }
        self.prev_tick = false;
        0
    }
}

/// A press moves both ranges together: the gap between the close and the
/// medium range never changes.
pub proof fn lemma_gap_kept(b: ButtonPress, pinc: u8)
    requires
        b.poll_in_range(pinc),
    ensures
        b.polled(pinc).0.med_range - b.polled(pinc).0.close_range == b.med_range - b.close_range,
{
}

/// A button held across two polls is acted on once: the second poll
/// changes no range and reports nothing.
pub proof fn lemma_one_action_per_press(b: ButtonPress, pinc: u8)
    requires
        b.poll_in_range(pinc),
        increase_held(pinc) || decrease_held(pinc),
        !b.prev_tick,
    ensures
        b.polled(pinc).1 != 0,
        b.polled(pinc).0.polled(pinc).1 == 0,
        b.polled(pinc).0.polled(pinc).0.close_range == b.polled(pinc).0.close_range,
        b.polled(pinc).0.polled(pinc).0.med_range == b.polled(pinc).0.med_range,
{
}

/// The widen button is PC4 and the narrow button PC5, both active low: a
/// fresh press of PC4 widens both ranges by one and returns 2; a fresh
/// press of PC5 alone narrows both by one and returns 1; with neither held
/// nothing changes and 0 is returned.
pub proof fn lemma_buttons(b: ButtonPress, pinc: u8)
    requires
        b.poll_in_range(pinc),
        !b.prev_tick,
    ensures
        pinc & 0x10 == 0 ==> b.polled(pinc).1 == 2 && b.polled(pinc).0.close_range == b.close_range + 1
            && b.polled(pinc).0.med_range == b.med_range + 1,
        pinc & 0x10 != 0 && pinc & 0x20 == 0 ==> b.polled(pinc).1 == 1 && b.polled(pinc).0.close_range
            == b.close_range - 1 && b.polled(pinc).0.med_range == b.med_range - 1,
        pinc & 0x10 != 0 && pinc & 0x20 != 0 ==> b.polled(pinc).1 == 0 && b.polled(pinc).0.close_range
            == b.close_range && b.polled(pinc).0.med_range == b.med_range,
{
}

} // verus!
