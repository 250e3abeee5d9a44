use vstd::prelude::*;
use crate::ports::{Action, Port, PortUpdate};

verus! {

/// Timer0 clock select /8: the highest pitch.
pub const CS_HIGH: u8 = 0x02;

/// Timer0 clock select /64: the middle pitch.
pub const CS_MID: u8 = 0x03;

/// Timer0 clock select /256: the lowest pitch.
pub const CS_LOW: u8 = 0x04;

/// Timer0 stopped: silence.
pub const CS_OFF: u8 = 0x00;

/// How many notes a melody can hold.
pub const MAX_NOTES: usize = 3;

/// A note: the Timer0 clock select that sets its pitch, and how many
/// 50 ms steps it lasts.
pub type Note = (u8, u8);

/// The register writes that start a tone, or silence the buzzer and pull
/// its pin (PD6) low.
pub open spec fn spec_set_tone(cs: u8) -> Seq<Action> {
    if cs == CS_OFF {
        seq![
            Action::Timer0Clock(0),
            Action::Port(PortUpdate { port: Port::D, clear: 0x40, set: 0 }),
        ]
    } else {
        seq![Action::Timer0Clock(cs & 0x07)]
    }
}

/// The register writes that start a tone with clock select `cs`.
pub fn set_tone(cs: u8) -> (r: Vec<Action>)
    ensures
        r@ == spec_set_tone(cs),
{
    if cs == CS_OFF {
        let r = vec![
            Action::Timer0Clock(0),
            Action::Port(PortUpdate { port: Port::D, clear: 0x40, set: 0 }),
        ];
        assert(r@ =~= spec_set_tone(cs));
        r
    } else {
        let r = vec![Action::Timer0Clock(cs & 0x07)];
        assert(r@ =~= spec_set_tone(cs));
        r
    }
}

/// A piezo buzzer playing short melodies of up to three notes, advanced by
/// one step every 50 ms.
pub struct Buzzer {
    pub notes: [Note; 3],
    /// Notes in the current melody.
    pub note_cnt: u8,
    /// The note that is playing; the melody is over when it reaches the count.
    pub note_idx: u8,
    /// Steps the current note has lasted.
    pub note_ctr: u8,
}

/// The state of a buzzer, with its notes as a sequence.
pub ghost struct BuzzerView {
    pub notes: Seq<Note>,
    pub note_cnt: u8,
    pub note_idx: u8,
    pub note_ctr: u8,
}

impl View for Buzzer {
    type V = BuzzerView;

    open spec fn view(&self) -> BuzzerView {
        BuzzerView {
            notes: self.notes@,
            note_cnt: self.note_cnt,
            note_idx: self.note_idx,
            note_ctr: self.note_ctr,
        }
    }
}

impl BuzzerView {
    /// At most three notes, and the playing note is one of them or the end.
    pub open spec fn wf(&self) -> bool {
        &&& self.notes.len() == 3
        &&& self.note_cnt <= MAX_NOTES
        &&& self.note_idx <= self.note_cnt
    }

    /// Whether a melody is still playing.
    pub open spec fn playing(&self) -> bool {
        self.note_idx < self.note_cnt
    }

    /// The buzzer after starting the first (at most three) notes of `seq`;
    /// slots past the new melody keep their old notes.
    pub open spec fn played(&self, seq: Seq<Note>) -> BuzzerView {
        let n = if seq.len() < 3 {
            seq.len()
        } else {
            3
        };
        BuzzerView {
            notes: Seq::new(3, |i: int| if i < n { seq[i] } else { self.notes[i] }),
            note_cnt: n as u8,
            note_idx: 0,
            note_ctr: 0,
        }
    }

    /// The buzzer after one 50 ms step.
    pub open spec fn stepped(&self) -> BuzzerView {
        if !self.playing() {
            *self
        } else {
            let ctr = if self.note_ctr < 255 {
                (self.note_ctr + 1) as u8
            } else {
                255u8
            };
            if ctr >= self.notes[self.note_idx as int].1 {
                BuzzerView { note_ctr: 0, note_idx: (self.note_idx + 1) as u8, ..*self }
            } else {
                BuzzerView { note_ctr: ctr, ..*self }
            }
        }
    }

    /// The writes of one step: a new tone when the next note starts,
    /// silence when the melody ends, nothing otherwise.
    pub open spec fn step_actions(&self) -> Seq<Action> {
        let next = self.stepped();
        if self.playing() && next.note_idx != self.note_idx {
            if next.playing() {
                spec_set_tone(next.notes[next.note_idx as int].0)
            } else {
                spec_set_tone(CS_OFF)
            }
        } else {
            seq![]
        }
    }
}

impl Buzzer {
    /// A silent buzzer with no melody.
    pub fn new() -> (r: Self)
        ensures
            r@ == (BuzzerView {
                notes: seq![(0u8, 0u8), (0u8, 0u8), (0u8, 0u8)],
                note_cnt: 0,
                note_idx: 0,
                note_ctr: 0,
            }),
            r@.wf(),
            !r@.playing(),
    {
        let r = Buzzer { notes: [(0, 0), (0, 0), (0, 0)], note_cnt: 0, note_idx: 0, note_ctr: 0 };
        assert(r.notes@ =~= seq![(0u8, 0u8), (0u8, 0u8), (0u8, 0u8)]);
        r
    }

    /// Whether a melody is still playing.
    pub fn is_playing(&self) -> (r: bool)
        ensures
            r == self@.playing(),
    {
        self.note_idx < self.note_cnt
    }

    /// Starts a melody of the first (at most three) notes of `seq` and
    /// returns the writes that start the first slot's tone.
    pub fn play(&mut self, seq: &[Note]) -> (r: Vec<Action>)
        ensures
            final(self)@ == old(self)@.played(seq@),
            final(self)@.wf(),
            r@ == spec_set_tone(final(self)@.notes[0].0),
    {
        let n: usize = if seq.len() < MAX_NOTES {
            seq.len()
        } else {
            MAX_NOTES
        };
        self.note_cnt = n as u8;
        self.note_idx = 0;
        self.note_ctr = 0;
        let ghost old_notes = self.notes@;
        let mut i: usize = 0;
        while i < n
            invariant
                n <= 3,
                n <= seq@.len(),
                i <= n,
                self.note_cnt == n,
                self.note_idx == 0,
                self.note_ctr == 0,
                old_notes.len() == 3,
                forall|j: int|
                    0 <= j < 3 ==> #[trigger] self.notes@[j] == if j < i {
                        seq@[j]
                    } else {
                        old_notes[j]
                    },
            decreases n - i,
        {
            self.notes[i] = seq[i];
            i = i + 1;
        }
        assert(self@.notes =~= old(self)@.played(seq@).notes);
        set_tone(self.notes[0].0)
    }

    /// Whether a melody will still be playing after the next step.
    pub fn playing_after_step(&self) -> (r: bool)
        requires
            self@.wf(),
        ensures
            r == self@.stepped().playing(),
    {
        if self.note_idx >= self.note_cnt {
            return false;
        }
        let ctr = self.note_ctr.saturating_add(1);
        if ctr >= self.notes[self.note_idx as usize].1 {
            self.note_idx + 1 < self.note_cnt
        } else {
            true
        }
    }

    /// Advances the melody by one 50 ms step.
    pub fn step(&mut self) -> (r: Vec<Action>)
        requires
            old(self)@.wf(),
        ensures
            final(self)@.wf(),
            final(self)@ == old(self)@.stepped(),
            r@ == old(self)@.step_actions(),
    {
        if self.note_idx >= self.note_cnt {
            return Vec::new();
        }
        self.note_ctr = self.note_ctr.saturating_add(1);
        if self.note_ctr >= self.notes[self.note_idx as usize].1 {
            self.note_ctr = 0;
            self.note_idx += 1;
            if self.note_idx >= self.note_cnt {
                set_tone(CS_OFF)
            } else {
                set_tone(self.notes[self.note_idx as usize].0)
            }
        } else {
            Vec::new()
        }
    }
}

/// The melody that tells the stepper got faster: low, then middle.
pub open spec fn increase_melody() -> Seq<Note> {
    seq![(CS_LOW, 3u8), (CS_MID, 3u8)]
}

/// The melody that tells the stepper got slower: middle, then low.
pub open spec fn decrease_melody() -> Seq<Note> {
    seq![(CS_MID, 3u8), (CS_LOW, 3u8)]
}

/// The melody that tells the stepper has been idle too long.
pub open spec fn idle_melody() -> Seq<Note> {
    seq![(CS_MID, 4u8), (CS_LOW, 4u8), (CS_MID, 4u8)]
}

/// Two notes, low then middle: the stepper got faster.
pub fn play_increase(buzzer: &mut Buzzer) -> (r: Vec<Action>)
    ensures
        final(buzzer)@ == old(buzzer)@.played(increase_melody()),
        final(buzzer)@.wf(),
        final(buzzer)@.playing(),
        r@ == spec_set_tone(CS_LOW),
{
    let r = buzzer.play(&[(CS_LOW, 3), (CS_MID, 3)]);
    proof {
        assert(seq![(CS_LOW, 3u8), (CS_MID, 3u8)] =~= increase_melody());
    }
    r
}

/// Two notes, middle then low: the stepper got slower.
pub fn play_decrease(buzzer: &mut Buzzer) -> (r: Vec<Action>)
    ensures
        final(buzzer)@ == old(buzzer)@.played(decrease_melody()),
        final(buzzer)@.wf(),
        final(buzzer)@.playing(),
        r@ == spec_set_tone(CS_MID),
{
    let r = buzzer.play(&[(CS_MID, 3), (CS_LOW, 3)]);
    proof {
        assert(seq![(CS_MID, 3u8), (CS_LOW, 3u8)] =~= decrease_melody());
    }
    r
}

/// Three notes, middle, low, middle: the stepper has been idle too long.
pub fn play_idle(buzzer: &mut Buzzer) -> (r: Vec<Action>)
    ensures
        final(buzzer)@ == old(buzzer)@.played(idle_melody()),
        final(buzzer)@.wf(),
        final(buzzer)@.playing(),
        r@ == spec_set_tone(CS_MID),
{
    let r = buzzer.play(&[(CS_MID, 4), (CS_LOW, 4), (CS_MID, 4)]);
    proof {
        assert(seq![(CS_MID, 4u8), (CS_LOW, 4u8), (CS_MID, 4u8)] =~= idle_melody());
    }
    r
}

/// The buzzer after `k` steps.
pub open spec fn steps(b: BuzzerView, k: nat) -> BuzzerView
    decreases k,
{
    if k == 0 {
        b
    } else {
        steps(b, (k - 1) as nat).stepped()
    }
}

/// A note that has just started lasts exactly its duration in steps (at
/// least one): the count runs up while the note holds, then the next note
/// starts with a fresh count.
pub proof fn lemma_note_duration(b: BuzzerView, k: nat)
    requires
        b.wf(),
        b.playing(),
        b.note_ctr == 0,
        k < b.notes[b.note_idx as int].1,
    ensures
        steps(b, k) == (BuzzerView { note_ctr: k as u8, ..b }),
        steps(b, (k + 1) as nat) == if k + 1 == b.notes[b.note_idx as int].1 {
            BuzzerView { note_ctr: 0, note_idx: (b.note_idx + 1) as u8, ..b }
        } else {
            BuzzerView { note_ctr: (k + 1) as u8, ..b }
        },
    decreases k,
{
    if k > 0 {
        lemma_note_duration(b, (k - 1) as nat);
    }
}

/// A note of duration zero still sounds for one step.
pub proof fn lemma_zero_note(b: BuzzerView)
    requires
        b.wf(),
        b.playing(),
        b.notes[b.note_idx as int].1 == 0,
    ensures
        b.stepped() == (BuzzerView { note_ctr: 0, note_idx: (b.note_idx + 1) as u8, ..b }),
{
}

/// A silent buzzer stays silent and unchanged.
pub proof fn lemma_idle_step(b: BuzzerView)
    requires
        !b.playing(),
    ensures
        b.stepped() == b,
        b.step_actions() == Seq::<Action>::empty(),
{
}

proof fn lemma_steps_add(b: BuzzerView, x: nat, y: nat)
    ensures
        steps(b, x + y) == steps(steps(b, x), y),
    decreases y,
{
    if y > 0 {
        lemma_steps_add(b, x, (y - 1) as nat);
        assert((x + y - 1) as nat == x + (y - 1) as nat);
    }
}

proof fn lemma_note_full(b: BuzzerView)
    requires
        b.wf(),
        b.playing(),
        b.note_ctr == 0,
        b.notes[b.note_idx as int].1 >= 1,
    ensures
        steps(b, b.notes[b.note_idx as int].1 as nat) == (BuzzerView {
            note_ctr: 0,
            note_idx: (b.note_idx + 1) as u8,
            ..b
        }),
{
    let d = b.notes[b.note_idx as int].1 as nat;
    lemma_note_duration(b, (d - 1) as nat);
    assert((d - 1 + 1) as nat == d);
}

/// The idle alert sounds for twelve steps (600 ms): its three notes of
/// four steps each, then the buzzer falls silent.
pub proof fn lemma_idle_melody_length(b: BuzzerView)
    requires
        b.wf(),
    ensures
        steps(b.played(idle_melody()), 11).playing(),
        !steps(b.played(idle_melody()), 12).playing(),
{
    let p = b.played(idle_melody());
    assert(p.notes[0].1 == 4 && p.notes[1].1 == 4 && p.notes[2].1 == 4);
    lemma_note_full(p);
    let p1 = steps(p, 4);
    lemma_note_full(p1);
    let p2 = steps(p1, 4);
    lemma_steps_add(p, 4, 4);
    lemma_note_duration(p2, 3);
    lemma_note_full(p2);
    lemma_steps_add(p, 8, 3);
    lemma_steps_add(p, 8, 4);
}

/// The confirmation melodies: faster is the low note (clock /256) then the
/// middle note (clock /64), three steps each; slower is the same two notes
/// the other way round; the idle alert is middle, low, middle, four steps
/// each. A melody's first note sounds at once, and the slots a shorter
/// melody leaves keep their notes.
pub proof fn lemma_melodies(b: BuzzerView)
    requires
        b.wf(),
    ensures
        b.played(increase_melody()).notes == seq![(4u8, 3u8), (3u8, 3u8), b.notes[2]],
        b.played(increase_melody()).note_cnt == 2,
        b.played(decrease_melody()).notes == seq![(3u8, 3u8), (4u8, 3u8), b.notes[2]],
        b.played(decrease_melody()).note_cnt == 2,
        b.played(idle_melody()).notes == seq![(3u8, 4u8), (4u8, 4u8), (3u8, 4u8)],
        b.played(idle_melody()).note_cnt == 3,
        b.played(increase_melody()).note_idx == 0 && b.played(increase_melody()).note_ctr == 0,
        spec_set_tone(4) == seq![Action::Timer0Clock(4)],
        spec_set_tone(3) == seq![Action::Timer0Clock(3)],
        spec_set_tone(0) == seq![
            Action::Timer0Clock(0),
            Action::Port(PortUpdate { port: Port::D, clear: 0x40, set: 0 }),
        ],
{
    assert(b.played(increase_melody()).notes =~= seq![(4u8, 3u8), (3u8, 3u8), b.notes[2]]);
    assert(b.played(decrease_melody()).notes =~= seq![(3u8, 3u8), (4u8, 3u8), b.notes[2]]);
    assert(b.played(idle_melody()).notes =~= seq![(3u8, 4u8), (4u8, 4u8), (3u8, 4u8)]);
    assert(4u8 & 0x07u8 == 4u8 && 3u8 & 0x07u8 == 3u8) by (bit_vector);
}

} // verus!
