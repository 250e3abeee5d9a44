use vstd::prelude::*;

verus! {

/// Timer1 overflows (about 4 ms each) after which a wait for the echo
/// gives up: 20 ms covers the HC-SR04's range.
pub const TIMEOUT_OVERFLOWS: u8 = 5;

/// Timer1 counts added per overflow when the pulse length is computed.
pub const TIMER_OVERFLOW_MULTIPLIER: u64 = 65535;

/// The trigger line (PB4).
pub const TRIG_MASK: u8 = 0x10;

/// The echo line (PB5).
pub const ECHO_MASK: u8 = 0x20;

/// What one poll of the echo line decided.
#[derive(Clone, Copy, PartialEq, Eq, Structural, Debug)]
pub struct EchoPoll {
    /// `Some(true)` when the echo reached the awaited level, `Some(false)`
    /// when the wait timed out, `None` to poll again.
    pub outcome: Option<bool>,
    /// Whether the Timer1 overflow flag was seen and must be cleared (and
    /// counted, while timing the pulse).
    pub clear_overflow: bool,
}

/// A busy-wait for the echo line to reach a level, bounded by Timer1
/// overflows.
pub struct EchoWait {
    /// Overflows seen so far.
    pub ovf: u8,
}

impl EchoWait {
    pub fn new() -> (r: Self)
        ensures
            r.ovf == 0,
    {
        EchoWait { ovf: 0 }
    }

    /// The wait and the decision after one poll.
    pub open spec fn polled(&self, reached: bool, overflowed: bool) -> (EchoWait, EchoPoll) {
        if reached {
            (*self, EchoPoll { outcome: Some(true), clear_overflow: false })
        } else if overflowed {
            let ovf = (self.ovf + 1) as u8;
            (
                EchoWait { ovf },
                EchoPoll {
                    outcome: if ovf >= TIMEOUT_OVERFLOWS {
                        Some(false)
                    } else {
                        None
                    },
                    clear_overflow: true,
                },
            )
        } else {
            (*self, EchoPoll { outcome: None, clear_overflow: false })
        }
    }

    /// One poll: `reached` is whether the echo line is at the awaited level,
    /// `overflowed` whether Timer1's overflow flag is set.
    pub fn poll(&mut self, reached: bool, overflowed: bool) -> (r: EchoPoll)
        requires
            old(self).ovf < TIMEOUT_OVERFLOWS,
        ensures
            (*final(self), r) == old(self).polled(reached, overflowed),
            r.outcome is None ==> final(self).ovf < TIMEOUT_OVERFLOWS,
    {
        if reached {
            return EchoPoll { outcome: Some(true), clear_overflow: false };
        }
        if overflowed {
            self.ovf += 1;
            if self.ovf >= TIMEOUT_OVERFLOWS {
                return EchoPoll { outcome: Some(false), clear_overflow: true };
            }
            return EchoPoll { outcome: None, clear_overflow: true };
        }
        EchoPoll { outcome: None, clear_overflow: false }
    }
}

/// The echo pulse length in Timer1 counts.
pub fn echo_ticks(ticks: u16, overflows: u32) -> (r: u64)
    ensures
        r == ticks + TIMER_OVERFLOW_MULTIPLIER * overflows,
{
    assert(TIMER_OVERFLOW_MULTIPLIER * overflows <= 65535 * 0xFFFF_FFFF) by (nonlinear_arith)
        requires
            overflows <= 0xFFFF_FFFF,
    ;
    ticks as u64 + TIMER_OVERFLOW_MULTIPLIER * overflows as u64
}

/// The wait after `k` polls in which the echo never came and Timer1
/// overflowed each time.
pub open spec fn overflow_polls(w: EchoWait, k: nat) -> EchoWait
    decreases k,
{
    if k == 0 {
        w
    } else {
        overflow_polls(w, (k - 1) as nat).polled(false, true).0
    }
}

/// A fresh wait for an echo that never comes ends exactly on the fifth
/// overflow: the first four polls that see an overflow keep waiting.
pub proof fn lemma_wait_bounded(k: nat)
    requires
        1 <= k <= TIMEOUT_OVERFLOWS,
    ensures
        overflow_polls(EchoWait { ovf: 0 }, k).ovf == k,
        overflow_polls(EchoWait { ovf: 0 }, (k - 1) as nat).polled(false, true).1.outcome == if k
            == TIMEOUT_OVERFLOWS {
            Some(false)
        } else {
            None::<bool>
        },
    decreases k,
{
    if k > 1 {
        lemma_wait_bounded((k - 1) as nat);
    }
}

/// A wait gives up on the fifth overflow: after four overflow polls a
/// fresh wait is still waiting, the fifth ends it unanswered; an echo that
/// arrives ends it answered at once; and every overflow seen is cleared.
pub proof fn lemma_five_overflows(w: EchoWait, overflowed: bool)
    requires
        w.ovf < 5,
    ensures
        overflow_polls(EchoWait { ovf: 0 }, 4).ovf == 4,
        overflow_polls(EchoWait { ovf: 0 }, 4).polled(false, true).1 == (EchoPoll {
            outcome: Some(false),
            clear_overflow: true,
        }),
        w.polled(true, overflowed).1.outcome == Some(true),
        w.polled(false, true).1.clear_overflow,
        w.ovf < 4 ==> w.polled(false, true).1.outcome is None,
        w.polled(false, false) == (w, EchoPoll { outcome: None, clear_overflow: false }),
{
    lemma_wait_bounded(5);
    lemma_wait_bounded(4);
}

} // verus!
