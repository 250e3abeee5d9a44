use board_tasks::ports::{Port, PortUpdate};
use board_tasks::rgb::{Color, NonSimultaneousRGBDisplay, RGBDisplay};

#[test]
fn color_cycle() {
    assert_eq!(Color::Red.next(), Color::Blue);
    assert_eq!(Color::Blue.next(), Color::Green);
    assert_eq!(Color::Green.next(), Color::Blank);
    assert_eq!(Color::Blank.next(), Color::Red);
    assert_eq!(Color::Red.next().next().next().next(), Color::Red);
}

#[test]
fn multiplexed_purple_alternates() {
    let mut d = NonSimultaneousRGBDisplay::purple();
    assert_eq!((d.red_cycle, d.blue_cycle, d.green_cycle), (5, 5, 0));
    let mut sets = Vec::new();
    for _ in 0..12 {
        let u = d.display_color();
        assert_eq!(u.port, Port::C);
        assert_eq!(u.clear, 0x0E);
        sets.push(u.set);
    }
    // Five red steps, five blue steps (green and blank slots are empty), then red again.
    assert_eq!(sets, vec![2, 2, 2, 2, 2, 8, 8, 8, 8, 8, 2, 2]);
}

#[test]
fn pwm_lights_first_total_count_steps() {
    let mut d = RGBDisplay::purple();
    d.adjust_brightness(3);
    let mut lit = 0;
    for i in 0..10 {
        let u = d.display_color();
        assert_eq!(u.clear, 0xFE);
        if u.set & 0x0E != 0 {
            lit += 1;
            assert!(i < 3);
        }
        assert_eq!(u.set & 0x30, 0x30);
    }
    assert_eq!(lit, 3);
    assert_eq!(d.internal_counter, 10);
}

#[test]
fn brightness_wraps_mod_eleven() {
    let mut d = RGBDisplay::purple();
    d.adjust_brightness(10);
    assert_eq!(d.total_count, 10);
    d.adjust_brightness(11);
    assert_eq!(d.total_count, 0);
    d.adjust_brightness(25);
    assert_eq!(d.total_count, 3);
}

#[test]
fn masks() {
    let mut d = RGBDisplay::purple();
    assert_eq!(d.on_mask, 0x0A);
    d.turn_red();
    assert_eq!(d.on_mask, 0x02);
    d.add_blue();
    assert_eq!(d.on_mask, 0x0A);
    d.turn_green();
    assert_eq!(d.on_mask, 0x04);
    d.turn_blue();
    assert_eq!(d.on_mask, 0x08);
    d.turn_purple();
    assert_eq!(d.on_mask, 0x0A);
}

#[test]
fn counter_wraps_into_period() {
    let mut d = RGBDisplay { on_mask: 0x02, internal_counter: 23, total_count: 5 };
    let u = d.display_color();
    assert_eq!(u, PortUpdate { port: Port::C, clear: 0xFE, set: 0x32 });
    assert_eq!(d.internal_counter, 4);
}
