use board_tasks::joystick::JoystickDir;
use board_tasks::ports::{Action, Port, PortUpdate};
use board_tasks::task::{
    IdleBuzzerState, JoystickTaskState, ServoLedState, State, StepperLedState, StepperTaskState,
    Task, TickFn, ButtonSpeedState,
};
use board_tasks::task_initer::{add_task, board_task_list, can_tick, init_tasks, run_tick, Shared, TickInput};

const NO_INPUT: TickInput = TickInput { vry: 512, vrx: 512, pinc: 0xFF };

fn uart_text(acts: &[Action]) -> String {
    acts.iter()
        .filter_map(|a| match a {
            Action::Uart(b) => Some(*b as char),
            _ => None,
        })
        .collect()
}

#[test]
fn task_runs_every_period() {
    let mut sh = Shared::new(false);
    let mut t = Task::new(3, State::Joystick(JoystickTaskState::Start), TickFn::Joystick);
    let input = TickInput { vry: 100, vrx: 321, pinc: 0xFF };
    t.update_time_and_tick(1, &mut sh, input);
    t.update_time_and_tick(1, &mut sh, input);
    assert!(matches!(t.current_state, State::Joystick(JoystickTaskState::Start)));
    assert_eq!(t.elapsed_time, 2);
    t.update_time_and_tick(1, &mut sh, input);
    assert!(matches!(t.current_state, State::Joystick(JoystickTaskState::Active)));
    assert_eq!(t.elapsed_time, 0);
    for _ in 0..3 {
        t.update_time_and_tick(1, &mut sh, input);
    }
    assert_eq!(sh.joystick_dir, JoystickDir::Up);
    assert_eq!(sh.servo_adc, 321);
}

#[test]
fn init_tasks_registers_board_tasks() {
    let mut tasks = heapless::Vec::<Task, 8>::new();
    init_tasks(&mut tasks, false, false);
    assert_eq!(tasks.len(), 4);
    let periods: Vec<u32> = tasks.iter().map(|t| t.period).collect();
    assert_eq!(periods, vec![10, 1, 200, 50]);
    assert_eq!(tasks[1].tick, TickFn::Stepper);
    let mut all = heapless::Vec::<Task, 8>::new();
    init_tasks(&mut all, true, true);
    assert_eq!(all.len(), 6);
    assert!(matches!(all[4].current_state, State::ButtonSpeed(ButtonSpeedState::Start)));
    assert!(matches!(all[5].current_state, State::IdleBuzzer(IdleBuzzerState::Start)));
}

#[test]
fn full_list_drops_extra_tasks() {
    let mut tasks = heapless::Vec::<Task, 8>::new();
    init_tasks(&mut tasks, true, true);
    init_tasks(&mut tasks, false, false);
    assert_eq!(tasks.len(), 8);
    add_task(&mut tasks, Task::new(7, State::Joystick(JoystickTaskState::Start), TickFn::Joystick));
    assert_eq!(tasks.len(), 8);
    assert_eq!(tasks[6].period, 10);
    assert_eq!(tasks[7].period, 1);
}

#[test]
fn stepper_turns_with_stick_and_idles_without() {
    let mut sh = Shared::new(false);
    let active = State::StepperCtrl(StepperTaskState::Active);
    sh.joystick_dir = JoystickDir::Down;
    // period 15: 266 thousandths per ms, a step on the 4th tick.
    let mut steps = Vec::new();
    for _ in 0..4 {
        let (_, acts) = run_tick(TickFn::Stepper, &active, &mut sh, NO_INPUT);
        steps.push(acts.len());
    }
    assert_eq!(steps, vec![0, 0, 0, 1]);
    assert_eq!(sh.acc, 64);
    assert_eq!(sh.stepper.step_idx, 1);
    sh.joystick_dir = JoystickDir::Center;
    let (_, acts) = run_tick(TickFn::Stepper, &active, &mut sh, NO_INPUT);
    assert_eq!(acts, vec![Action::Port(PortUpdate { port: Port::B, clear: 0x3C, set: 0 })]);
    assert_eq!((sh.acc, sh.stepper_idle_ms), (0, 1));
    sh.joystick_dir = JoystickDir::Up;
    sh.acc = 900;
    let (_, acts) = run_tick(TickFn::Stepper, &active, &mut sh, NO_INPUT);
    assert_eq!(acts, vec![Action::Port(PortUpdate { port: Port::B, clear: 0x3C, set: 0x20 })]);
    assert_eq!(sh.stepper.step_idx, 0);
    assert_eq!(sh.stepper_idle_ms, 0);
}

#[test]
fn stepper_leds_chase() {
    let mut sh = Shared::new(false);
    let active = State::StepperLed(StepperLedState::Active);
    sh.joystick_dir = JoystickDir::Up;
    let (_, a) = run_tick(TickFn::StepperLed, &active, &mut sh, NO_INPUT);
    assert_eq!(
        a,
        vec![
            Action::Port(PortUpdate { port: Port::B, clear: 0x01, set: 0x01 }),
            Action::Port(PortUpdate { port: Port::D, clear: 0xA0, set: 0x80 }),
        ]
    );
    assert_eq!(sh.phase, 1);
    sh.joystick_dir = JoystickDir::Center;
    let (_, a) = run_tick(TickFn::StepperLed, &active, &mut sh, NO_INPUT);
    assert_eq!(a[1], Action::Port(PortUpdate { port: Port::D, clear: 0xA0, set: 0x00 }));
    assert_eq!(sh.phase, 2);
    let (_, a) = run_tick(TickFn::StepperLed, &active, &mut sh, NO_INPUT);
    assert_eq!(a[1], Action::Port(PortUpdate { port: Port::D, clear: 0xA0, set: 0x80 }));
}

#[test]
fn servo_follows_and_holds() {
    let mut sh = Shared::new(false);
    let active = State::ServoLed(ServoLedState::Active);
    sh.servo_adc = 900;
    let (_, a) = run_tick(TickFn::ServoLed, &active, &mut sh, NO_INPUT);
    assert_eq!(a[0], Action::Servo(2999 + (388 * 2000 / 511) as u16));
    assert_eq!(a[1], Action::Port(PortUpdate { port: Port::D, clear: 0x1C, set: 0x10 }));
    sh.servo_adc = 500;
    let (_, b) = run_tick(TickFn::ServoLed, &active, &mut sh, NO_INPUT);
    assert_eq!(a, b);
    assert_eq!(sh.last_x, 900);
    sh.servo_adc = 100;
    let (_, c) = run_tick(TickFn::ServoLed, &active, &mut sh, NO_INPUT);
    assert_eq!(c[1], Action::Port(PortUpdate { port: Port::D, clear: 0x1C, set: 0x04 }));
}

#[test]
fn speed_buttons_change_period_once_per_press() {
    let mut sh = Shared::new(true);
    let active = State::ButtonSpeed(ButtonSpeedState::Active);
    let faster = TickInput { vry: 512, vrx: 512, pinc: 0xFD };
    let (_, a) = run_tick(TickFn::ButtonSpeed, &active, &mut sh, faster);
    assert_eq!(sh.step_period, 10);
    assert_eq!(uart_text(&a), "step_period=10 ms/phase\n");
    assert_eq!(*a.last().unwrap(), Action::Timer0Clock(4));
    assert!(sh.buzzer.is_playing());
    let (_, a) = run_tick(TickFn::ButtonSpeed, &active, &mut sh, faster);
    assert!(a.is_empty());
    assert_eq!(sh.step_period, 10);
    run_tick(TickFn::ButtonSpeed, &active, &mut sh, NO_INPUT);
    run_tick(TickFn::ButtonSpeed, &active, &mut sh, faster);
    assert_eq!(sh.step_period, 5);
    run_tick(TickFn::ButtonSpeed, &active, &mut sh, NO_INPUT);
    let (_, a) = run_tick(TickFn::ButtonSpeed, &active, &mut sh, faster);
    assert!(a.is_empty());
    assert_eq!(sh.step_period, 5);
    let slower = TickInput { vry: 512, vrx: 512, pinc: 0xFE };
    let (_, a) = run_tick(TickFn::ButtonSpeed, &active, &mut sh, slower);
    assert_eq!(sh.step_period, 10);
    assert_eq!(uart_text(&a), "step_period=10 ms/phase\n");
    assert_eq!(*a.last().unwrap(), Action::Timer0Clock(3));
}

#[test]
fn speed_buttons_without_buzzer_only_log() {
    let mut sh = Shared::new(false);
    let active = State::ButtonSpeed(ButtonSpeedState::Active);
    let slower = TickInput { vry: 512, vrx: 512, pinc: 0xFE };
    let (_, a) = run_tick(TickFn::ButtonSpeed, &active, &mut sh, slower);
    assert_eq!(sh.step_period, 20);
    assert!(a.iter().all(|x| matches!(x, Action::Uart(_))));
    assert!(!sh.buzzer.is_playing());
}

#[test]
fn idle_alert_after_ten_seconds() {
    let mut sh = Shared::new(true);
    let active = State::IdleBuzzer(IdleBuzzerState::Active);
    sh.stepper_idle_ms = 9_999;
    let (_, a) = run_tick(TickFn::IdleBuzzer, &active, &mut sh, NO_INPUT);
    assert!(a.is_empty());
    sh.stepper_idle_ms = 10_000;
    let (_, a) = run_tick(TickFn::IdleBuzzer, &active, &mut sh, NO_INPUT);
    assert_eq!(a[0], Action::Timer0Clock(3));
    assert_eq!(uart_text(&a), "idle=10000 ms ALERT\n");
    assert_eq!(sh.next_ms, 15_000);
    assert!(sh.buzzer.is_playing());
    sh.stepper_idle_ms = 0;
    run_tick(TickFn::IdleBuzzer, &active, &mut sh, NO_INPUT);
    assert_eq!(sh.next_ms, 10_000);
}

#[test]
fn idle_time_logged_every_second() {
    let mut sh = Shared::new(true);
    let active = State::IdleBuzzer(IdleBuzzerState::Active);
    sh.stepper_idle_ms = 3_000;
    let mut lines = String::new();
    for _ in 0..40 {
        let (_, a) = run_tick(TickFn::IdleBuzzer, &active, &mut sh, NO_INPUT);
        lines.push_str(&uart_text(&a));
    }
    assert_eq!(lines, "idle=3000 ms\nidle=3000 ms\n");
    assert_eq!(sh.log_ticks, 40);
}

#[test]
fn start_states_only_activate() {
    let mut sh = Shared::new(true);
    let (s, a) = run_tick(TickFn::Stepper, &State::StepperCtrl(StepperTaskState::Start), &mut sh, NO_INPUT);
    assert!(matches!(s, State::StepperCtrl(StepperTaskState::Active)));
    assert!(a.is_empty());
    assert_eq!(sh.stepper_idle_ms, 0);
}

#[test]
fn mismatched_state_cannot_tick() {
    let sh = Shared::new(false);
    assert!(!can_tick(TickFn::Stepper, &State::Joystick(JoystickTaskState::Active), &sh, NO_INPUT));
    assert!(can_tick(TickFn::Joystick, &State::Joystick(JoystickTaskState::Active), &sh, NO_INPUT));
}

#[test]
fn board_task_list_starts_with_the_board_tasks() {
    let tasks = board_task_list(true, false);
    let kinds: Vec<TickFn> = tasks.iter().map(|t| t.tick).collect();
    assert_eq!(
        kinds,
        vec![TickFn::Joystick, TickFn::Stepper, TickFn::StepperLed, TickFn::ServoLed, TickFn::ButtonSpeed]
    );
    assert!(tasks.iter().all(|t| t.elapsed_time == 0));
}

#[test]
fn released_stick_sounds_alert_after_ten_seconds() {
    let mut sh = Shared::new(true);
    let stepper = State::StepperCtrl(StepperTaskState::Active);
    let buzzer = State::IdleBuzzer(IdleBuzzerState::Active);
    for _ in 0..9_999 {
        run_tick(TickFn::Stepper, &stepper, &mut sh, NO_INPUT);
    }
    let (_, a) = run_tick(TickFn::IdleBuzzer, &buzzer, &mut sh, NO_INPUT);
    assert!(!a.contains(&Action::Timer0Clock(3)));
    run_tick(TickFn::Stepper, &stepper, &mut sh, NO_INPUT);
    assert_eq!(sh.stepper_idle_ms, 10_000);
    let (_, a) = run_tick(TickFn::IdleBuzzer, &buzzer, &mut sh, NO_INPUT);
    assert_eq!(a[0], Action::Timer0Clock(3));
    assert!(uart_text(&a).starts_with("idle=10000 ms ALERT\n"));
}
