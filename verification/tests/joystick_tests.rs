use board_tasks::joystick::{admux_for, dir_from_vry, horizontal_dir, read_dir, read_pressed, JoystickDir};

#[test]
fn directions() {
    assert_eq!(read_dir(100, 512), JoystickDir::Left);
    assert_eq!(read_dir(900, 512), JoystickDir::Right);
    assert_eq!(read_dir(512, 100), JoystickDir::Up);
    assert_eq!(read_dir(512, 900), JoystickDir::Down);
    assert_eq!(read_dir(512, 512), JoystickDir::Center);
    assert_eq!(read_dir(300, 700), JoystickDir::Center);
    assert_eq!(read_dir(299, 0), JoystickDir::Left);
    assert_eq!(read_dir(701, 0), JoystickDir::Right);
}

#[test]
fn horizontal_axis_wins() {
    assert_eq!(horizontal_dir(100), Some(JoystickDir::Left));
    assert_eq!(horizontal_dir(500), None);
    assert_eq!(read_dir(100, 900), read_dir(100, 100));
}

#[test]
fn single_axis_and_switch() {
    assert_eq!(dir_from_vry(0), JoystickDir::Up);
    assert_eq!(dir_from_vry(1023), JoystickDir::Down);
    assert_eq!(dir_from_vry(500), JoystickDir::Center);
    assert!(read_pressed(0xFB));
    assert!(!read_pressed(0xFF));
    assert_eq!(admux_for(1), 0x41);
    assert_eq!(admux_for(9), 0x41);
}
