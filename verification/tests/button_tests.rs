use board_tasks::button::ButtonPress;
use board_tasks::calibrator::{Calibration, Calibrator};
use board_tasks::display::FourDigitDisplay;

#[test]
fn widen_and_narrow() {
    let mut b = ButtonPress::init(10, 15);
    assert_eq!(b.detect_and_handle_press(0xEF), 2);
    assert_eq!((b.close_range, b.med_range, b.prev_tick), (11, 16, true));
    // Still held: the next poll only clears the flag.
    assert_eq!(b.detect_and_handle_press(0xEF), 0);
    assert_eq!((b.close_range, b.med_range, b.prev_tick), (11, 16, false));
    assert_eq!(b.detect_and_handle_press(0xDF), 1);
    assert_eq!((b.close_range, b.med_range), (10, 15));
    assert_eq!(b.detect_and_handle_press(0xFF), 0);
    assert_eq!(b.detect_and_handle_press(0xCF), 2);
}

#[test]
fn calibration_enters_after_ten_held_polls() {
    let mut c = Calibrator::init();
    let mut cal = Calibration::new();
    let mut disp = FourDigitDisplay::init();
    for _ in 0..9 {
        c.calibrator_loop(0xDF, 40, &mut cal, &mut disp);
        assert!(!cal.active);
    }
    assert_eq!(c.tick_count, 9);
    c.calibrator_loop(0xDF, 40, &mut cal, &mut disp);
    assert!(cal.active);
    assert_eq!((c.tick_count, c.released), (0, false));
    assert_eq!((cal.close_range, cal.med_range), (10, 15));
}

#[test]
fn calibration_tracks_distance_and_leaves_on_second_press() {
    let mut c = Calibrator::init();
    let mut cal = Calibration { active: true, close_range: 10, med_range: 15 };
    let mut disp = FourDigitDisplay::init();
    c.calibrator_loop(0xDF, 40, &mut cal, &mut disp);
    assert!(cal.active);
    assert_eq!((cal.close_range, cal.med_range), (40, 60));
    assert_eq!((disp.digit1, disp.digit2, disp.digit3, disp.digit4), (11, 18, 10, 12));
    c.calibrator_loop(0xFF, 21, &mut cal, &mut disp);
    assert!(c.released && cal.active);
    assert_eq!((cal.close_range, cal.med_range), (21, 31));
    c.calibrator_loop(0xDF, 21, &mut cal, &mut disp);
    assert!(!cal.active);
    assert!(!c.released);
}

#[test]
fn released_button_resets_count() {
    let mut c = Calibrator::init();
    let mut cal = Calibration::new();
    let mut disp = FourDigitDisplay::init();
    c.calibrator_loop(0xDF, 0, &mut cal, &mut disp);
    c.calibrator_loop(0xDF, 0, &mut cal, &mut disp);
    c.calibrator_loop(0xFF, 0, &mut cal, &mut disp);
    assert_eq!(c.tick_count, 0);
}
