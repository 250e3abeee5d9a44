use board_tasks::buzzer::{play_decrease, play_idle, play_increase, set_tone, Buzzer};
use board_tasks::ports::{Action, Port, PortUpdate};

#[test]
fn tones() {
    assert_eq!(set_tone(3), vec![Action::Timer0Clock(3)]);
    assert_eq!(set_tone(0x0C), vec![Action::Timer0Clock(4)]);
    assert_eq!(
        set_tone(0),
        vec![Action::Timer0Clock(0), Action::Port(PortUpdate { port: Port::D, clear: 0x40, set: 0 })]
    );
}

#[test]
fn increase_melody_plays_six_steps() {
    let mut b = Buzzer::new();
    assert!(!b.is_playing());
    assert_eq!(play_increase(&mut b), vec![Action::Timer0Clock(4)]);
    assert!(b.is_playing());
    let mut log = Vec::new();
    for _ in 0..6 {
        log.push(b.step());
    }
    assert!(log[0].is_empty() && log[1].is_empty());
    assert_eq!(log[2], vec![Action::Timer0Clock(3)]);
    assert!(log[3].is_empty() && log[4].is_empty());
    assert_eq!(log[5], set_tone(0));
    assert!(!b.is_playing());
    assert!(b.step().is_empty());
}

#[test]
fn idle_melody_lasts_twelve_steps() {
    let mut b = Buzzer::new();
    assert_eq!(play_idle(&mut b), vec![Action::Timer0Clock(3)]);
    for _ in 0..11 {
        b.step();
        assert!(b.is_playing());
    }
    assert_eq!(b.step(), set_tone(0));
    assert!(!b.is_playing());
}

#[test]
fn decrease_then_empty_melody() {
    let mut b = Buzzer::new();
    assert_eq!(play_decrease(&mut b), vec![Action::Timer0Clock(3)]);
    assert_eq!(b.notes, [(3, 3), (4, 3), (0, 0)]);
    // An empty melody stops at once but still sets the tone of the first slot.
    assert_eq!(b.play(&[]), vec![Action::Timer0Clock(3)]);
    assert!(!b.is_playing());
}

#[test]
fn zero_length_note_lasts_one_step() {
    let mut b = Buzzer::new();
    b.play(&[(2, 0), (4, 1)]);
    assert_eq!(b.step(), vec![Action::Timer0Clock(4)]);
    assert_eq!(b.step(), set_tone(0));
    assert!(!b.playing_after_step());
}

#[test]
fn melody_longer_than_three_is_cut() {
    let mut b = Buzzer::new();
    b.play(&[(2, 1), (3, 1), (4, 1), (2, 1)]);
    assert_eq!(b.note_cnt, 3);
}

#[test]
fn fresh_buzzer_holds_silent_slots() {
    let b = Buzzer::new();
    assert_eq!(b.notes, [(0, 0), (0, 0), (0, 0)]);
    assert_eq!((b.note_cnt, b.note_idx, b.note_ctr), (0, 0, 0));
}
