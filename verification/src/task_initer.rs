use vstd::prelude::*;
use crate::ports::{Action, Port, PortUpdate, uart_actions, push_uart};
use crate::joystick::{JoystickDir, dir_from_vry, spec_vertical};
use crate::stepper::{Stepper, phase_update, spec_step_pattern, stop, STEPPER_MASK, STEP_PERIOD_MIN, STEP_PERIOD_MAX,
    STEP_PERIOD_DELTA, STEP_PERIOD_DEFAULT};
use crate::servo::{set_from_adc, spec_servo_ocr};
use crate::buzzer::{Buzzer, BuzzerView, play_increase, play_decrease, play_idle, spec_set_tone,
    increase_melody, decrease_melody, idle_melody, CS_LOW, CS_MID};
use crate::logger::{log_step_period, log_idle, log_idle_alert, step_period_line, idle_line,
    idle_alert_line, ascii_bytes, decimal};
use crate::task::{State, Task, TickFn, JoystickTaskState, StepperTaskState, StepperLedState,
    ServoLedState, ButtonSpeedState, IdleBuzzerState};
use crate::task_list::{task_list, push_task, new_task_list};

verus! {

/// The readings a tick may need: the two joystick axes and the PINC buttons.
#[derive(Clone, Copy, PartialEq, Eq, Structural, Debug)]
pub struct TickInput {
    /// ADC reading of the stick's VRy axis.
    pub vry: u16,
    /// ADC reading of the stick's VRx axis.
    pub vrx: u16,
    /// PINC, for the speed buttons on PC0 and PC1.
    pub pinc: u8,
}

/// The state the tasks share, and the state each tick keeps between runs.
pub struct Shared {
    /// The last direction read from the joystick.
    pub joystick_dir: JoystickDir,
    /// The last VRx reading, which positions the servo.
    pub servo_adc: u16,
    /// Milliseconds the stepper has stood still (saturating).
    pub stepper_idle_ms: u32,
    /// The step period label (ms per phase) the buttons adjust.
    pub step_period: u32,
    pub stepper: Stepper,
    pub buzzer: Buzzer,
    /// Whether button presses are confirmed with a melody.
    pub buzzer_enabled: bool,
    /// The stepper's step accumulator (thousandths of a step).
    pub acc: u32,
    /// The stepper LED animation phase.
    pub phase: u8,
    /// The servo position held while the stick rests in its dead zone.
    pub last_x: u16,
    pub prev_dec: bool,
    pub prev_inc: bool,
    /// Idle time at which the next idle alert sounds.
    pub next_ms: u32,
    /// Idle-buzzer ticks run, wrapping.
    pub log_ticks: u32,
}

/// The shared state with the stepper as its phase and the buzzer as its view.
pub ghost struct SharedView {
    pub joystick_dir: JoystickDir,
    pub servo_adc: u16,
    pub stepper_idle_ms: u32,
    pub step_period: u32,
    pub step_idx: u8,
    pub buzzer: BuzzerView,
    pub buzzer_enabled: bool,
    pub acc: u32,
    pub phase: u8,
    pub last_x: u16,
    pub prev_dec: bool,
    pub prev_inc: bool,
    pub next_ms: u32,
    pub log_ticks: u32,
}

impl View for Shared {
    type V = SharedView;

    open spec fn view(&self) -> SharedView {
        SharedView {
            joystick_dir: self.joystick_dir,
            servo_adc: self.servo_adc,
            stepper_idle_ms: self.stepper_idle_ms,
            step_period: self.step_period,
            step_idx: self.stepper.step_idx,
            buzzer: self.buzzer@,
            buzzer_enabled: self.buzzer_enabled,
            acc: self.acc,
            phase: self.phase,
            last_x: self.last_x,
            prev_dec: self.prev_dec,
            prev_inc: self.prev_inc,
            next_ms: self.next_ms,
            log_ticks: self.log_ticks,
        }
    }
}

/// Idle time before the first idle alert.
pub const FIRST_ALERT_MS: u32 = 10_000;

/// Idle time between idle alerts.
pub const ALERT_INTERVAL_MS: u32 = 5_000;

impl Shared {
    /// The state at power-on; `buzzer_enabled` chooses whether speed changes
    /// are confirmed with a melody.
    pub fn new(buzzer_enabled: bool) -> (r: Self)
        ensures
            r@.joystick_dir == JoystickDir::Center,
            r@.servo_adc == 512,
            r@.stepper_idle_ms == 0,
            r@.step_period == STEP_PERIOD_DEFAULT,
            r@.step_idx == 0,
            r@.buzzer == (BuzzerView {
                notes: seq![(0u8, 0u8), (0u8, 0u8), (0u8, 0u8)],
                note_cnt: 0,
                note_idx: 0,
                note_ctr: 0,
            }),
            r@.buzzer.wf(),
            !r@.buzzer.playing(),
            r@.buzzer_enabled == buzzer_enabled,
            r@.acc == 0,
            r@.phase == 0,
            r@.last_x == 512,
            !r@.prev_dec,
            !r@.prev_inc,
            r@.next_ms == FIRST_ALERT_MS,
            r@.log_ticks == 0,
    {
        Shared {
            joystick_dir: JoystickDir::Center,
            servo_adc: 512,
            stepper_idle_ms: 0,
            step_period: STEP_PERIOD_DEFAULT,
            stepper: Stepper::new(),
            buzzer: Buzzer::new(),
            buzzer_enabled,
            acc: 0,
            phase: 0,
            last_x: 512,
            prev_dec: false,
            prev_inc: false,
            next_ms: FIRST_ALERT_MS,
            log_ticks: 0,
        }
    }
}

// ---------------------------------------------------------------------
// Which states a tick function accepts.

/// Whether `s` is a state of the task kind `kind`.
pub open spec fn fits(kind: TickFn, s: State) -> bool {
    match kind {
        TickFn::Joystick => s is Joystick,
        TickFn::Stepper => s is StepperCtrl,
        TickFn::StepperLed => s is StepperLed,
        TickFn::ServoLed => s is ServoLed,
        TickFn::ButtonSpeed => s is ButtonSpeed,
        TickFn::IdleBuzzer => s is IdleBuzzer,
    }
}

/// Whether `s` is the start state of its kind.
pub open spec fn is_start(s: State) -> bool {
    match s {
        State::Joystick(JoystickTaskState::Start) => true,
        State::StepperCtrl(StepperTaskState::Start) => true,
        State::StepperLed(StepperLedState::Start) => true,
        State::ServoLed(ServoLedState::Start) => true,
        State::ButtonSpeed(ButtonSpeedState::Start) => true,
        State::IdleBuzzer(IdleBuzzerState::Start) => true,
        _ => false,
    }
}

/// The active state of a task kind.
pub open spec fn active_state(kind: TickFn) -> State {
    match kind {
        TickFn::Joystick => State::Joystick(JoystickTaskState::Active),
        TickFn::Stepper => State::StepperCtrl(StepperTaskState::Active),
        TickFn::StepperLed => State::StepperLed(StepperLedState::Active),
        TickFn::ServoLed => State::ServoLed(ServoLedState::Active),
        TickFn::ButtonSpeed => State::ButtonSpeed(ButtonSpeedState::Active),
        TickFn::IdleBuzzer => State::IdleBuzzer(IdleBuzzerState::Active),
    }
}

// ---------------------------------------------------------------------
// The stepper task.

/// The phase after one step in a direction.
pub open spec fn next_idx(idx: u8, cw: bool) -> u8 {
    if cw {
        ((idx + 7) % 8) as u8
    } else {
        ((idx + 1) % 8) as u8
    }
}

/// The phase after `k` steps in a direction.
pub open spec fn idx_after(idx: u8, cw: bool, k: nat) -> u8
    decreases k,
{
    if k == 0 {
        idx
    } else {
        next_idx(idx_after(idx, cw, (k - 1) as nat), cw)
    }
}

/// The coil updates of `k` steps in a direction.
pub open spec fn step_updates(idx: u8, cw: bool, k: nat) -> Seq<Action>
    decreases k,
{
    if k == 0 {
        seq![]
    } else {
        step_updates(idx, cw, (k - 1) as nat).push(
            Action::Port(phase_update(idx_after(idx, cw, k))),
        )
    }
}

/// Thousandths of a step the accumulator gains per millisecond: a step
/// every `step_period / 4` ms.
pub open spec fn step_increment(step_period: u32) -> int {
    4000int / (step_period as int)
}

/// Whether the joystick asks the stepper to turn.
pub open spec fn turning(dir: JoystickDir) -> bool {
    dir == JoystickDir::Up || dir == JoystickDir::Down
}

/// The stepper task's effect: while the stick is up (clockwise) or down
/// (counter-clockwise) the accumulator gains its increment and a step is
/// taken for each whole thousand; otherwise the coils are released, the
/// accumulator emptied and the idle time counted.
pub open spec fn stepper_result(sv: SharedView) -> (SharedView, Seq<Action>) {
    if turning(sv.joystick_dir) {
        let total = sv.acc + step_increment(sv.step_period);
        let k = (total / 1000) as nat;
        let cw = sv.joystick_dir == JoystickDir::Up;
        (
            SharedView {
                stepper_idle_ms: 0,
                acc: (total % 1000) as u32,
                step_idx: idx_after(sv.step_idx, cw, k),
                ..sv
            },
            step_updates(sv.step_idx, cw, k),
        )
    } else {
        (
            SharedView {
                acc: 0,
                stepper_idle_ms: if sv.stepper_idle_ms < u32::MAX {
                    (sv.stepper_idle_ms + 1) as u32
                } else {
                    sv.stepper_idle_ms
                },
                ..sv
            },
            seq![Action::Port(PortUpdate { port: Port::B, clear: STEPPER_MASK, set: 0 })],
        )
    }
}

/// Whether the stepper task can run without overflow.
pub open spec fn stepper_ok(sv: SharedView) -> bool {
    turning(sv.joystick_dir) ==> {
        &&& sv.step_period > 0
        &&& sv.acc + step_increment(sv.step_period) <= u32::MAX
        &&& sv.step_idx < 8
    }
}

proof fn lemma_idx_after_small(idx: u8, cw: bool, k: nat)
    requires
        idx < 8,
    ensures
        idx_after(idx, cw, k) < 8,
    decreases k,
{
    if k > 0 {
        lemma_idx_after_small(idx, cw, (k - 1) as nat);
    }
}

proof fn lemma_div_mod_1000(a: int, k: int, t: int)
    by (nonlinear_arith)
    requires
        0 <= a < 1000,
        k >= 0,
        a + 1000 * k == t,
    ensures
        k == t / 1000,
        a == t % 1000,
{
}

fn stepper_tick(s: &State, sh: &mut Shared) -> (r: (State, Vec<Action>))
    requires
        s is StepperCtrl,
        !is_start(*s) ==> stepper_ok(old(sh)@),
    ensures
        is_start(*s) ==> r.0 == active_state(TickFn::Stepper) && final(sh)@ == old(sh)@ && r.1@
            == Seq::<Action>::empty(),
        !is_start(*s) ==> r.0 == active_state(TickFn::Stepper) && (final(sh)@, r.1@)
            == stepper_result(old(sh)@),
{
    match s {
        State::StepperCtrl(StepperTaskState::Start) => {
            return (State::StepperCtrl(StepperTaskState::Active), Vec::new());
        },
        _ => {},
    }
    let mut out: Vec<Action> = Vec::new();
    let dir = sh.joystick_dir;
    if dir == JoystickDir::Up || dir == JoystickDir::Down {
        let cw = dir == JoystickDir::Up;
        sh.stepper_idle_ms = 0;
        sh.acc = sh.acc + 4000 / sh.step_period;
        let ghost sv0 = sh@;
        let ghost mut k: nat = 0;
        while sh.acc >= 1000
            invariant
                sv0.step_idx < 8,
                sh.acc + 1000 * k == sv0.acc,
                sh.stepper.step_idx == idx_after(sv0.step_idx, cw, k),
                out@ == step_updates(sv0.step_idx, cw, k),
                sh@ == (SharedView { acc: sh.acc, step_idx: sh.stepper.step_idx, ..sv0 }),
            decreases sh.acc,
        {
            proof {
                lemma_idx_after_small(sv0.step_idx, cw, k);
            }
            sh.acc = sh.acc - 1000;
            let u = if cw {
                sh.stepper.step_cw()
            } else {
                sh.stepper.step_ccw()
            };
            out.push(Action::Port(u));
            proof {
                k = k + 1;
            }
        }
        proof {
            lemma_div_mod_1000(sh.acc as int, k as int, sv0.acc as int);
        }
    } else {
        sh.acc = 0;
        out.push(Action::Port(stop()));
        if sh.stepper_idle_ms < u32::MAX {
            sh.stepper_idle_ms += 1;
        }
        assert(out@ =~= seq![Action::Port(PortUpdate { port: Port::B, clear: STEPPER_MASK, set: 0 })]);
    }
    (State::StepperCtrl(StepperTaskState::Active), out)
}

// ---------------------------------------------------------------------
// The joystick task.

/// The joystick task's effect: the direction from VRy (which drives the
/// stepper) and the raw VRx reading (which drives the servo).
pub open spec fn joystick_result(sv: SharedView, input: TickInput) -> SharedView {
    SharedView { joystick_dir: spec_vertical(input.vry), servo_adc: input.vrx, ..sv }
}

fn joystick_tick(s: &State, sh: &mut Shared, input: TickInput) -> (r: (State, Vec<Action>))
    requires
        s is Joystick,
    ensures
        r.0 == active_state(TickFn::Joystick),
        r.1@ == Seq::<Action>::empty(),
        is_start(*s) ==> final(sh)@ == old(sh)@,
        !is_start(*s) ==> final(sh)@ == joystick_result(old(sh)@, input),
{
    match s {
        State::Joystick(JoystickTaskState::Start) => {},
        _ => {
            sh.joystick_dir = dir_from_vry(input.vry);
            sh.servo_adc = input.vrx;
        },
    }
    (State::Joystick(JoystickTaskState::Active), Vec::new())
}

// ---------------------------------------------------------------------
// The stepper LED task.

/// The PORTB (PB0) and PORTD (PD5, PD7) bits lit in each animation phase:
/// a chaser that runs one way while the stepper turns clockwise, the other
/// way counter-clockwise, and blinks alternately while it stands.
pub open spec fn stepper_led_bits(dir: JoystickDir, phase: u8) -> (u8, u8) {
    match dir {
        JoystickDir::Down => if phase == 0 {
            (0x00u8, 0x20u8)
        } else if phase == 1 {
            (0x00u8, 0xA0u8)
        } else {
            (0x01u8, 0xA0u8)
        },
        JoystickDir::Up => if phase == 0 {
            (0x01u8, 0x00u8)
        } else if phase == 1 {
            (0x01u8, 0x80u8)
        } else {
            (0x01u8, 0xA0u8)
        },
        _ => if phase == 0 {
            (0x00u8, 0x80u8)
        } else if phase == 1 {
            (0x01u8, 0x20u8)
        } else {
            (0x00u8, 0x00u8)
        },
    }
}

/// The stepper LED task's effect: the next of three phases, shown.
pub open spec fn stepper_led_result(sv: SharedView) -> (SharedView, Seq<Action>) {
    let phase = ((sv.phase + 1) % 3) as u8;
    let bits = stepper_led_bits(sv.joystick_dir, phase);
    (
        SharedView { phase, ..sv },
        seq![
            Action::Port(PortUpdate { port: Port::B, clear: 0x01, set: bits.0 }),
            Action::Port(PortUpdate { port: Port::D, clear: 0xA0, set: bits.1 }),
        ],
    )
}

fn stepper_led_tick(s: &State, sh: &mut Shared) -> (r: (State, Vec<Action>))
    requires
        s is StepperLed,
        !is_start(*s) ==> old(sh).phase < 255,
    ensures
        r.0 == active_state(TickFn::StepperLed),
        is_start(*s) ==> final(sh)@ == old(sh)@ && r.1@ == Seq::<Action>::empty(),
        !is_start(*s) ==> (final(sh)@, r.1@) == stepper_led_result(old(sh)@),
{
    match s {
        State::StepperLed(StepperLedState::Start) => {
            return (State::StepperLed(StepperLedState::Active), Vec::new());
        },
        _ => {},
    }
    sh.phase = (sh.phase + 1) % 3;
    let phase = sh.phase;
    let (pb, pd): (u8, u8) = match sh.joystick_dir {
        JoystickDir::Down => if phase == 0 {
            (0x00, 0x20)
        } else if phase == 1 {
            (0x00, 0xA0)
        } else {
            (0x01, 0xA0)
        },
        JoystickDir::Up => if phase == 0 {
            (0x01, 0x00)
        } else if phase == 1 {
            (0x01, 0x80)
        } else {
            (0x01, 0xA0)
        },
        _ => if phase == 0 {
            (0x00, 0x80)
        } else if phase == 1 {
            (0x01, 0x20)
        } else {
            (0x00, 0x00)
        },
    };
    let out = vec![
        Action::Port(PortUpdate { port: Port::B, clear: 0x01, set: pb }),
        Action::Port(PortUpdate { port: Port::D, clear: 0xA0, set: pd }),
    ];
    assert(out@ =~= stepper_led_result(old(sh)@).1);
    (State::StepperLed(StepperLedState::Active), out)
}

// ---------------------------------------------------------------------
// The servo task.

/// Readings within 400..=624 are the stick's dead zone.
pub open spec fn servo_moved(adc: u16) -> bool {
    adc < 400 || adc > 624
}

/// The servo LED lit for a position: PD4 far right, PD3 middle, PD2 left.
pub open spec fn servo_led(x: u16) -> u8 {
    if x >= 768 {
        0x10
    } else if x >= 256 {
        0x08
    } else {
        0x04
    }
}

/// The servo task's effect: outside the dead zone the servo follows the
/// reading, inside it holds the last position; the LED shows the region.
pub open spec fn servo_led_result(sv: SharedView) -> (SharedView, Seq<Action>) {
    let adc = sv.servo_adc;
    let x = if servo_moved(adc) {
        adc
    } else {
        sv.last_x
    };
    (
        SharedView { last_x: x, ..sv },
        seq![
            Action::Servo(spec_servo_ocr(x)),
            Action::Port(PortUpdate { port: Port::D, clear: 0x1C, set: servo_led(x) }),
        ],
    )
}

fn servo_led_tick(s: &State, sh: &mut Shared) -> (r: (State, Vec<Action>))
    requires
        s is ServoLed,
    ensures
        r.0 == active_state(TickFn::ServoLed),
        is_start(*s) ==> final(sh)@ == old(sh)@ && r.1@ == Seq::<Action>::empty(),
        !is_start(*s) ==> (final(sh)@, r.1@) == servo_led_result(old(sh)@),
{
    match s {
        State::ServoLed(ServoLedState::Start) => {
            return (State::ServoLed(ServoLedState::Active), Vec::new());
        },
        _ => {},
    }
    let adc = sh.servo_adc;
    let x = if adc < 400 || adc > 624 {
        sh.last_x = adc;
        adc
    } else {
        sh.last_x
    };
    let ocr = set_from_adc(x);
    let led: u8 = if x >= 768 {
        0x10
    } else if x >= 256 {
        0x08
    } else {
        0x04
    };
    let out = vec![
        Action::Servo(ocr),
        Action::Port(PortUpdate { port: Port::D, clear: 0x1C, set: led }),
    ];
    assert(out@ =~= servo_led_result(old(sh)@).1);
    (State::ServoLed(ServoLedState::Active), out)
}

// ---------------------------------------------------------------------
// The speed-button task.

/// Whether the slower button (PC0, active low) is held.
pub open spec fn dec_held(pinc: u8) -> bool {
    pinc & 0x01 == 0
}

/// Whether the faster button (PC1, active low) is held.
pub open spec fn inc_held(pinc: u8) -> bool {
    pinc & 0x02 == 0
}

/// A press of the faster button: a shorter period (not below the minimum),
/// logged, and confirmed with a rising melody when the buzzer is on.
pub open spec fn faster(sv: SharedView, pinc: u8) -> (SharedView, Seq<Action>) {
    if inc_held(pinc) && !sv.prev_inc && sv.step_period > STEP_PERIOD_MIN {
        let p = (sv.step_period - STEP_PERIOD_DELTA) as u32;
        (
            SharedView {
                step_period: p,
                buzzer: if sv.buzzer_enabled {
                    sv.buzzer.played(increase_melody())
                } else {
                    sv.buzzer
                },
                ..sv
            },
            uart_actions(step_period_line(p)) + if sv.buzzer_enabled {
                spec_set_tone(CS_LOW)
            } else {
                seq![]
            },
        )
    } else {
        (sv, seq![])
    }
}

/// A press of the slower button: a longer period (not above the maximum),
/// logged, and confirmed with a falling melody when the buzzer is on.
pub open spec fn slower(sv: SharedView, pinc: u8) -> (SharedView, Seq<Action>) {
    if dec_held(pinc) && !sv.prev_dec && sv.step_period < STEP_PERIOD_MAX {
        let p = (sv.step_period + STEP_PERIOD_DELTA) as u32;
        (
            SharedView {
                step_period: p,
                buzzer: if sv.buzzer_enabled {
                    sv.buzzer.played(decrease_melody())
                } else {
                    sv.buzzer
                },
                ..sv
            },
            uart_actions(step_period_line(p)) + if sv.buzzer_enabled {
                spec_set_tone(CS_MID)
            } else {
                seq![]
            },
        )
    } else {
        (sv, seq![])
    }
}

/// The speed-button task's effect: a new press (a button held now but not
/// at the previous poll) changes the period by one step; the faster button
/// is handled first.
pub open spec fn button_speed_result(sv: SharedView, pinc: u8) -> (SharedView, Seq<Action>) {
    let a = faster(sv, pinc);
    let b = slower(a.0, pinc);
    (SharedView { prev_dec: dec_held(pinc), prev_inc: inc_held(pinc), ..b.0 }, a.1 + b.1)
}

fn button_speed_tick(s: &State, sh: &mut Shared, input: TickInput) -> (r: (State, Vec<Action>))
    requires
        s is ButtonSpeed,
    ensures
        r.0 == active_state(TickFn::ButtonSpeed),
        is_start(*s) ==> final(sh)@ == old(sh)@ && r.1@ == Seq::<Action>::empty(),
        !is_start(*s) ==> (final(sh)@, r.1@) == button_speed_result(old(sh)@, input.pinc),
{
    match s {
        State::ButtonSpeed(ButtonSpeedState::Start) => {
            return (State::ButtonSpeed(ButtonSpeedState::Active), Vec::new());
        },
        _ => {},
    }
    let pinc = input.pinc;
    let dec = pinc & 0x01 == 0;
    let inc = pinc & 0x02 == 0;
    let mut out: Vec<Action> = Vec::new();
    if inc && !sh.prev_inc && sh.step_period > STEP_PERIOD_MIN {
        sh.step_period -= STEP_PERIOD_DELTA;
        let line = log_step_period(sh.step_period);
        push_uart(&mut out, &line);
        if sh.buzzer_enabled {
            let mut tone = play_increase(&mut sh.buzzer);
            out.append(&mut tone);
        }
    }
    let ghost mid = sh@;
    let ghost mid_out = out@;
    assert(mid == faster(old(sh)@, pinc).0);
    assert(mid_out =~= faster(old(sh)@, pinc).1);
    if dec && !sh.prev_dec && sh.step_period < STEP_PERIOD_MAX {
        sh.step_period += STEP_PERIOD_DELTA;
        let line = log_step_period(sh.step_period);
        push_uart(&mut out, &line);
        if sh.buzzer_enabled {
            let mut tone = play_decrease(&mut sh.buzzer);
            out.append(&mut tone);
        }
    }
    assert(sh@ == slower(mid, pinc).0);
    assert(out@ =~= mid_out + slower(mid, pinc).1);
    sh.prev_dec = dec;
    sh.prev_inc = inc;
    (State::ButtonSpeed(ButtonSpeedState::Active), out)
}

// ---------------------------------------------------------------------
// The idle-buzzer task.

/// Whether the idle alert sounds on this tick, given the buzzer after its
/// step: the stepper has been idle at least until the next alert time and
/// no melody is playing.
pub open spec fn alert_due(sv: SharedView) -> bool {
    let b = sv.buzzer.stepped();
    sv.stepper_idle_ms != 0 && sv.stepper_idle_ms >= sv.next_ms && !b.playing()
}

/// The tick counter after one more tick, wrapping.
pub open spec fn wrapped_inc(x: u32) -> u32 {
    if x == u32::MAX {
        0
    } else {
        (x + 1) as u32
    }
}

/// The idle-buzzer task's effect: the melody advances a step; while the
/// stepper moves the alert time goes back to ten seconds; once it has stood
/// still that long (and no melody plays) the idle melody sounds, the alert
/// is logged and the next one is due five seconds later; every twentieth
/// tick (a second) the idle time is logged while idle.
pub open spec fn idle_buzzer_result(sv: SharedView) -> (SharedView, Seq<Action>) {
    let b = sv.buzzer.stepped();
    let idle = sv.stepper_idle_ms;
    let alert = alert_due(sv);
    let ticks = wrapped_inc(sv.log_ticks);
    (
        SharedView {
            buzzer: if alert {
                b.played(idle_melody())
            } else {
                b
            },
            next_ms: if idle == 0 {
                FIRST_ALERT_MS
            } else if alert {
                (sv.next_ms + ALERT_INTERVAL_MS) as u32
            } else {
                sv.next_ms
            },
            log_ticks: ticks,
            ..sv
        },
        sv.buzzer.step_actions() + (if alert {
            spec_set_tone(CS_MID) + uart_actions(idle_alert_line(idle))
        } else {
            seq![]
        }) + (if idle > 0 && ticks % 20 == 0 {
            uart_actions(idle_line(idle))
        } else {
            seq![]
        }),
    )
}

/// Whether the idle-buzzer task can run without overflow.
pub open spec fn idle_buzzer_ok(sv: SharedView) -> bool {
    &&& sv.buzzer.wf()
    &&& alert_due(sv) ==> sv.next_ms + ALERT_INTERVAL_MS <= u32::MAX
}

fn idle_buzzer_tick(s: &State, sh: &mut Shared) -> (r: (State, Vec<Action>))
    requires
        s is IdleBuzzer,
        !is_start(*s) ==> idle_buzzer_ok(old(sh)@),
    ensures
        r.0 == active_state(TickFn::IdleBuzzer),
        is_start(*s) ==> final(sh)@ == old(sh)@ && r.1@ == Seq::<Action>::empty(),
        !is_start(*s) ==> (final(sh)@, r.1@) == idle_buzzer_result(old(sh)@),
{
    match s {
        State::IdleBuzzer(IdleBuzzerState::Start) => {
            return (State::IdleBuzzer(IdleBuzzerState::Active), Vec::new());
        },
        _ => {},
    }
    let mut out = sh.buzzer.step();
    let ghost stepped_out = out@;
    let idle = sh.stepper_idle_ms;
    if idle == 0 {
        sh.next_ms = FIRST_ALERT_MS;
    } else if idle >= sh.next_ms && !sh.buzzer.is_playing() {
        let mut tone = play_idle(&mut sh.buzzer);
        out.append(&mut tone);
        let line = log_idle_alert(idle);
        push_uart(&mut out, &line);
        sh.next_ms = sh.next_ms + ALERT_INTERVAL_MS;
    }
    let ghost alert_out = out@;
    sh.log_ticks = sh.log_ticks.wrapping_add(1);
    if idle > 0 && sh.log_ticks % 20 == 0 {
        let line = log_idle(idle);
        push_uart(&mut out, &line);
    }
    let ghost res = idle_buzzer_result(old(sh)@);
    assert(sh@ == res.0);
    assert(alert_out =~= stepped_out + (if alert_due(old(sh)@) {
        spec_set_tone(CS_MID) + uart_actions(idle_alert_line(idle))
    } else {
        seq![]
    }));
    assert(out@ =~= res.1);
    (State::IdleBuzzer(IdleBuzzerState::Active), out)
}

// ---------------------------------------------------------------------
// Dispatch.

/// Whether a task of kind `kind` in state `s` can run its tick: the state
/// belongs to the kind (any other is a fault) and the tick cannot overflow.
pub open spec fn tick_ok(kind: TickFn, s: State, sv: SharedView, input: TickInput) -> bool {
    &&& fits(kind, s)
    &&& !is_start(s) ==> match kind {
        TickFn::Stepper => stepper_ok(sv),
        TickFn::StepperLed => sv.phase < 255,
        TickFn::IdleBuzzer => idle_buzzer_ok(sv),
        _ => true,
    }
}

/// The new state, shared state and effects of one tick. A task in its start
/// state only moves to its active state.
pub open spec fn tick_result(kind: TickFn, s: State, sv: SharedView, input: TickInput) -> (
    State,
    SharedView,
    Seq<Action>,
) {
    if is_start(s) {
        (active_state(kind), sv, seq![])
    } else {
        let (nsv, acts) = match kind {
            TickFn::Joystick => (joystick_result(sv, input), Seq::<Action>::empty()),
            TickFn::Stepper => stepper_result(sv),
            TickFn::StepperLed => stepper_led_result(sv),
            TickFn::ServoLed => servo_led_result(sv),
            TickFn::ButtonSpeed => button_speed_result(sv, input.pinc),
            TickFn::IdleBuzzer => idle_buzzer_result(sv),
        };
        (active_state(kind), nsv, acts)
    }
}

/// Runs the tick function of kind `kind` on state `s`.
pub fn run_tick(kind: TickFn, s: &State, sh: &mut Shared, input: TickInput) -> (r: (
    State,
    Vec<Action>,
))
    requires
        tick_ok(kind, *s, old(sh)@, input),
    ensures
        (r.0, final(sh)@, r.1@) == tick_result(kind, *s, old(sh)@, input),
{
    match kind {
        TickFn::Joystick => joystick_tick(s, sh, input),
        TickFn::Stepper => stepper_tick(s, sh),
        TickFn::StepperLed => stepper_led_tick(s, sh),
        TickFn::ServoLed => servo_led_tick(s, sh),
        TickFn::ButtonSpeed => button_speed_tick(s, sh, input),
        TickFn::IdleBuzzer => idle_buzzer_tick(s, sh),
    }
}

/// Whether a tick can run: the exec form of `tick_ok`.
pub fn can_tick(kind: TickFn, s: &State, sh: &Shared, input: TickInput) -> (r: bool)
    ensures
        r == tick_ok(kind, *s, sh@, input),
{
    let fits = match kind {
        TickFn::Joystick => matches!(s, State::Joystick(_)),
        TickFn::Stepper => matches!(s, State::StepperCtrl(_)),
        TickFn::StepperLed => matches!(s, State::StepperLed(_)),
        TickFn::ServoLed => matches!(s, State::ServoLed(_)),
        TickFn::ButtonSpeed => matches!(s, State::ButtonSpeed(_)),
        TickFn::IdleBuzzer => matches!(s, State::IdleBuzzer(_)),
    };
    if !fits {
        return false;
    }
    let start = match s {
        State::Joystick(JoystickTaskState::Start) => true,
        State::StepperCtrl(StepperTaskState::Start) => true,
        State::StepperLed(StepperLedState::Start) => true,
        State::ServoLed(ServoLedState::Start) => true,
        State::ButtonSpeed(ButtonSpeedState::Start) => true,
        State::IdleBuzzer(IdleBuzzerState::Start) => true,
        _ => false,
    };
    if start {
        return true;
    }
    match kind {
        TickFn::Stepper => {
            if sh.joystick_dir == JoystickDir::Up || sh.joystick_dir == JoystickDir::Down {
                sh.step_period > 0 && sh.acc <= u32::MAX - 4000 / sh.step_period
                    && sh.stepper.step_idx < 8
            } else {
                true
            }
        },
        TickFn::StepperLed => sh.phase < 255,
        TickFn::IdleBuzzer => {
            if !(sh.buzzer.note_cnt <= 3 && sh.buzzer.note_idx <= sh.buzzer.note_cnt) {
                return false;
            }
            let idle = sh.stepper_idle_ms;
            let alert = idle != 0 && idle >= sh.next_ms && !sh.buzzer.playing_after_step();
            !alert || sh.next_ms <= u32::MAX - ALERT_INTERVAL_MS
        },
        _ => true,
    }
}

// ---------------------------------------------------------------------
// Registering the tasks.

/// The list after appending each of `new` while there is room (eight
/// tasks); tasks that find the list full are dropped.
pub open spec fn appended(list: Seq<Task>, new: Seq<Task>) -> Seq<Task>
    decreases new.len(),
{
    if new.len() == 0 {
        list
    } else {
        let l = appended(list, new.drop_last());
        if l.len() < 8 {
            l.push(new.last())
        } else {
            l
        }
    }
}

/// Adds a task to the scheduler's list; a task that finds the list full is
/// dropped.
pub fn add_task(tasks: &mut heapless::Vec<Task, 8>, task: Task)
    ensures
        task_list(*final(tasks)) == appended(task_list(*old(tasks)), seq![task]),
{
    let ghost before = task_list(*tasks);
    let _ = push_task(tasks, task);
    assert(seq![task].drop_last() =~= Seq::<Task>::empty());
    assert(appended(before, Seq::<Task>::empty()) == before);
}

/// A task of the given kind, period and state, with no time counted.
pub open spec fn task_of(p: u32, s: State, kind: TickFn) -> Task {
    Task { current_state: s, period: p, elapsed_time: 0, tick: kind }
}

/// The tasks of the board, in order: the joystick every 10 ms, the stepper
/// every 1 ms, the stepper LEDs every 200 ms and the servo every 50 ms;
/// with `speed_buttons`, the speed buttons every 50 ms; with `buzzer`, the
/// idle buzzer every 50 ms.
pub open spec fn board_tasks(speed_buttons: bool, buzzer: bool) -> Seq<Task> {
    seq![
        task_of(10, State::Joystick(JoystickTaskState::Start), TickFn::Joystick),
        task_of(1, State::StepperCtrl(StepperTaskState::Start), TickFn::Stepper),
        task_of(200, State::StepperLed(StepperLedState::Start), TickFn::StepperLed),
        task_of(50, State::ServoLed(ServoLedState::Start), TickFn::ServoLed),
    ] + (if speed_buttons {
        seq![task_of(50, State::ButtonSpeed(ButtonSpeedState::Start), TickFn::ButtonSpeed)]
    } else {
        seq![]
    }) + (if buzzer {
        seq![task_of(50, State::IdleBuzzer(IdleBuzzerState::Start), TickFn::IdleBuzzer)]
    } else {
        seq![]
    })
}

proof fn lemma_appended_push(list: Seq<Task>, new: Seq<Task>, t: Task)
    ensures
        appended(list, new.push(t)) == appended(appended(list, new), seq![t]),
{
    assert(new.push(t).drop_last() =~= new);
    assert(seq![t].drop_last() =~= Seq::<Task>::empty());
    let l = appended(list, new);
    assert(appended(l, Seq::<Task>::empty()) == l);
}

/// Registers the board's tasks with the scheduler.
pub fn init_tasks(tasks: &mut heapless::Vec<Task, 8>, speed_buttons: bool, buzzer: bool)
    ensures
        task_list(*final(tasks)) == appended(task_list(*old(tasks)), board_tasks(speed_buttons, buzzer)),
{
    let ghost start = task_list(*tasks);
    let ghost mut added: Seq<Task> = seq![];
    assert(appended(start, added) == start);
    add_task(tasks, Task::new(10, State::Joystick(JoystickTaskState::Start), TickFn::Joystick));
    proof {
        lemma_appended_push(start, added, task_of(10, State::Joystick(JoystickTaskState::Start), TickFn::Joystick));
        added = added.push(task_of(10, State::Joystick(JoystickTaskState::Start), TickFn::Joystick));
    }
    add_task(tasks, Task::new(1, State::StepperCtrl(StepperTaskState::Start), TickFn::Stepper));
    proof {
        lemma_appended_push(start, added, task_of(1, State::StepperCtrl(StepperTaskState::Start), TickFn::Stepper));
        added = added.push(task_of(1, State::StepperCtrl(StepperTaskState::Start), TickFn::Stepper));
    }
    add_task(tasks, Task::new(200, State::StepperLed(StepperLedState::Start), TickFn::StepperLed));
    proof {
        lemma_appended_push(start, added, task_of(200, State::StepperLed(StepperLedState::Start), TickFn::StepperLed));
        added = added.push(task_of(200, State::StepperLed(StepperLedState::Start), TickFn::StepperLed));
    }
    add_task(tasks, Task::new(50, State::ServoLed(ServoLedState::Start), TickFn::ServoLed));
    proof {
        lemma_appended_push(start, added, task_of(50, State::ServoLed(ServoLedState::Start), TickFn::ServoLed));
        added = added.push(task_of(50, State::ServoLed(ServoLedState::Start), TickFn::ServoLed));
    }
    if speed_buttons {
        add_task(tasks, Task::new(50, State::ButtonSpeed(ButtonSpeedState::Start), TickFn::ButtonSpeed));
        proof {
            lemma_appended_push(start, added, task_of(50, State::ButtonSpeed(ButtonSpeedState::Start), TickFn::ButtonSpeed));
            added = added.push(task_of(50, State::ButtonSpeed(ButtonSpeedState::Start), TickFn::ButtonSpeed));
        }
    }
    if buzzer {
        add_task(tasks, Task::new(50, State::IdleBuzzer(IdleBuzzerState::Start), TickFn::IdleBuzzer));
        proof {
            lemma_appended_push(start, added, task_of(50, State::IdleBuzzer(IdleBuzzerState::Start), TickFn::IdleBuzzer));
            added = added.push(task_of(50, State::IdleBuzzer(IdleBuzzerState::Start), TickFn::IdleBuzzer));
        }
    }
    assert(added =~= board_tasks(speed_buttons, buzzer));
}

// ---------------------------------------------------------------------
// Properties of the ticks.

/// The shared state the board keeps between ticks: a valid stepper phase
/// and LED phase, an accumulator below one step, a positive step period and
/// a valid melody.
pub open spec fn shared_wf(sv: SharedView) -> bool {
    &&& sv.step_idx < 8
    &&& sv.phase < 3
    &&& sv.acc < 1000
    &&& sv.step_period >= 1
    &&& sv.buzzer.wf()
}

/// The power-on state is well formed.
pub proof fn lemma_new_shared_wf(sv: SharedView)
    requires
        sv.step_idx == 0,
        sv.phase == 0,
        sv.acc == 0,
        sv.step_period == STEP_PERIOD_DEFAULT,
        sv.buzzer.wf(),
    ensures
        shared_wf(sv),
{
}

proof fn lemma_played_wf(b: BuzzerView, m: Seq<(u8, u8)>)
    ensures
        b.played(m).wf(),
{
}

proof fn lemma_stepped_wf(b: BuzzerView)
    requires
        b.wf(),
    ensures
        b.stepped().wf(),
{
}

/// Every tick keeps the shared state well formed, and in a well-formed
/// state every tick of a task in its own state can run, save an idle alert
/// whose next time would pass u32::MAX.
pub proof fn lemma_ticks_keep_wf(kind: TickFn, s: State, sv: SharedView, input: TickInput)
    requires
        shared_wf(sv),
        fits(kind, s),
    ensures
        (kind != TickFn::IdleBuzzer || !alert_due(sv) || sv.next_ms + ALERT_INTERVAL_MS
            <= u32::MAX) ==> tick_ok(kind, s, sv, input),
        tick_ok(kind, s, sv, input) ==> shared_wf(tick_result(kind, s, sv, input).1),
        tick_ok(kind, s, sv, input) ==> fits(kind, tick_result(kind, s, sv, input).0),
{
    if !is_start(s) {
        match kind {
            TickFn::Stepper => {
                if turning(sv.joystick_dir) {
                    assert(step_increment(sv.step_period) <= 4000) by (nonlinear_arith)
                        requires
                            sv.step_period >= 1,
                    ;
                    let total = sv.acc + step_increment(sv.step_period);
                    lemma_idx_after_small(sv.step_idx, sv.joystick_dir == JoystickDir::Up, (total
                        / 1000) as nat);
                }
            },
            TickFn::ButtonSpeed => {
                lemma_played_wf(sv.buzzer, increase_melody());
                let a = faster(sv, input.pinc);
                lemma_played_wf(a.0.buzzer, decrease_melody());
            },
            TickFn::IdleBuzzer => {
                lemma_stepped_wf(sv.buzzer);
                lemma_played_wf(sv.buzzer.stepped(), idle_melody());
            },
            _ => {},
        }
    }
}

/// With the accumulator below one step and a period of at least the minimum
/// five, a stepper tick takes at most one step, and it takes exactly the
/// whole thousands the accumulator gained.
pub proof fn lemma_stepper_at_most_one_step(sv: SharedView)
    requires
        turning(sv.joystick_dir),
        sv.acc < 1000,
        sv.step_period >= STEP_PERIOD_MIN,
    ensures
        stepper_result(sv).1.len() <= 1,
        stepper_result(sv).0.acc + 1000 * stepper_result(sv).1.len() == sv.acc + step_increment(
            sv.step_period,
        ),
        stepper_result(sv).0.acc < 1000,
{
    assert(step_increment(sv.step_period) <= 800) by (nonlinear_arith)
        requires
            sv.step_period >= 5,
    ;
    let total = sv.acc + step_increment(sv.step_period);
    let k = (total / 1000) as nat;
    lemma_step_updates_len(sv.step_idx, sv.joystick_dir == JoystickDir::Up, k);
}

proof fn lemma_step_updates_len(idx: u8, cw: bool, k: nat)
    ensures
        step_updates(idx, cw, k).len() == k,
    decreases k,
{
    if k > 0 {
        lemma_step_updates_len(idx, cw, (k - 1) as nat);
    }
}

/// A released stick stops the stepper: the coils are de-energised, the
/// accumulator empties and the idle time grows by a millisecond.
pub proof fn lemma_released_stick_stops(sv: SharedView)
    requires
        !turning(sv.joystick_dir),
        sv.stepper_idle_ms < u32::MAX,
    ensures
        stepper_result(sv).1 == seq![Action::Port(stop_update())],
        stepper_result(sv).0.acc == 0,
        stepper_result(sv).0.stepper_idle_ms == sv.stepper_idle_ms + 1,
        stepper_result(sv).0.step_idx == sv.step_idx,
{
}

/// The update that releases all coils.
pub open spec fn stop_update() -> PortUpdate {
    PortUpdate { port: Port::B, clear: STEPPER_MASK, set: 0 }
}

/// The speed buttons keep the step period a multiple of five between the
/// minimum and the maximum.
pub proof fn lemma_period_in_range(sv: SharedView, pinc: u8)
    requires
        STEP_PERIOD_MIN <= sv.step_period <= STEP_PERIOD_MAX,
        sv.step_period % STEP_PERIOD_DELTA == 0,
    ensures
        STEP_PERIOD_MIN <= button_speed_result(sv, pinc).0.step_period <= STEP_PERIOD_MAX,
        button_speed_result(sv, pinc).0.step_period % STEP_PERIOD_DELTA == 0,
{
}

/// In the dead zone the servo holds its last position; outside it the
/// servo follows the stick.
pub proof fn lemma_servo_holds_in_dead_zone(sv: SharedView)
    ensures
        !servo_moved(sv.servo_adc) ==> servo_led_result(sv).0.last_x == sv.last_x
            && servo_led_result(sv).1[0] == Action::Servo(spec_servo_ocr(sv.last_x)),
        servo_moved(sv.servo_adc) ==> servo_led_result(sv).0.last_x == sv.servo_adc
            && servo_led_result(sv).1[0] == Action::Servo(spec_servo_ocr(sv.servo_adc)),
{
}

/// While the stepper moves the idle alert is re-armed for ten seconds and
/// no alert sounds.
pub proof fn lemma_moving_rearms_alert(sv: SharedView)
    requires
        sv.stepper_idle_ms == 0,
    ensures
        idle_buzzer_result(sv).0.next_ms == FIRST_ALERT_MS,
        !alert_due(sv),
        idle_buzzer_result(sv).1 == sv.buzzer.step_actions(),
{
    assert(idle_buzzer_result(sv).1 =~= sv.buzzer.step_actions());
}

/// Registering the board's tasks on an empty list keeps every one of them,
/// in order.
pub proof fn lemma_board_tasks_fit(speed_buttons: bool, buzzer: bool)
    ensures
        appended(Seq::<Task>::empty(), board_tasks(speed_buttons, buzzer)) == board_tasks(
            speed_buttons,
            buzzer,
        ),
{
    lemma_appended_all_fit(Seq::<Task>::empty(), board_tasks(speed_buttons, buzzer));
}

proof fn lemma_appended_all_fit(list: Seq<Task>, new: Seq<Task>)
    requires
        list.len() + new.len() <= 8,
    ensures
        appended(list, new) == list + new,
    decreases new.len(),
{
    if new.len() > 0 {
        lemma_appended_all_fit(list, new.drop_last());
        assert(list + new.drop_last() + seq![new.last()] =~= list + new);
    } else {
        assert(list + new =~= list);
    }
}

/// A fresh task list holding the board's tasks, in order.
pub fn board_task_list(speed_buttons: bool, buzzer: bool) -> (r: heapless::Vec<Task, 8>)
    ensures
        task_list(r) == board_tasks(speed_buttons, buzzer),
{
    let mut tasks = new_task_list();
    init_tasks(&mut tasks, speed_buttons, buzzer);
    proof {
        lemma_board_tasks_fit(speed_buttons, buzzer);
    }
    tasks
}

/// The shared state after `k` stepper ticks with the stick released.
pub open spec fn released_ticks(sv: SharedView, k: nat) -> SharedView
    decreases k,
{
    if k == 0 {
        sv
    } else {
        stepper_result(released_ticks(sv, (k - 1) as nat)).0
    }
}

proof fn lemma_released_ticks(sv: SharedView, k: nat)
    requires
        !turning(sv.joystick_dir),
        sv.stepper_idle_ms + k <= u32::MAX,
    ensures
        released_ticks(sv, k) == (SharedView {
            stepper_idle_ms: (sv.stepper_idle_ms + k) as u32,
            acc: if k == 0 { sv.acc } else { 0 },
            ..sv
        }),
    decreases k,
{
    if k > 0 {
        lemma_released_ticks(sv, (k - 1) as nat);
    }
}

/// Ten seconds of a released stick sound the idle alert: starting from a
/// stepper that has just moved, `k` stepper ticks (one per millisecond)
/// with the stick released make the idle time `k` ms; the idle-buzzer tick
/// stays quiet before 10 000 ms and, with the alert armed for 10 s and no
/// melody playing, sounds the idle melody and logs the alert at 10 000 ms,
/// re-arming it five seconds later.
pub proof fn lemma_released_stick_sounds_alert(sv: SharedView, k: nat)
    requires
        !turning(sv.joystick_dir),
        sv.stepper_idle_ms == 0,
        sv.next_ms == FIRST_ALERT_MS,
        k <= FIRST_ALERT_MS,
    ensures
        released_ticks(sv, k).stepper_idle_ms == k,
        k < FIRST_ALERT_MS ==> !alert_due(released_ticks(sv, k)),
        (k == FIRST_ALERT_MS && !sv.buzzer.stepped().playing()) ==> ({
            let s = released_ticks(sv, k);
            &&& alert_due(s)
            &&& idle_buzzer_result(s).0.buzzer == s.buzzer.stepped().played(idle_melody())
            &&& idle_buzzer_result(s).0.next_ms == FIRST_ALERT_MS + ALERT_INTERVAL_MS
            &&& idle_buzzer_result(s).1 == s.buzzer.step_actions() + spec_set_tone(CS_MID)
                + uart_actions(idle_alert_line(FIRST_ALERT_MS)) + (if wrapped_inc(s.log_ticks) % 20
                == 0 {
                uart_actions(idle_line(FIRST_ALERT_MS))
            } else {
                seq![]
            })
        }),
{
    lemma_released_ticks(sv, k);
    let s = released_ticks(sv, k);
    assert(s.buzzer == sv.buzzer);
    assert(s.next_ms == sv.next_ms);
}

// ---------------------------------------------------------------------
// Laws stated over the inputs and results alone.

proof fn lemma_idx_after_closed(idx: u8, cw: bool, k: nat)
    requires
        idx < 8,
    ensures
        !cw ==> idx_after(idx, cw, k) == (idx + k) % 8,
        cw ==> idx_after(idx, cw, k) == (idx + 7 * k) % 8,
    decreases k,
{
    if k > 0 {
        lemma_idx_after_closed(idx, cw, (k - 1) as nat);
        let j = (k - 1) as nat;
        if cw {
            assert(((idx + 7 * j) % 8 + 7) % 8 == (idx + 7 * k) % 8) by (nonlinear_arith)
                requires
                    k == j + 1,
            ;
        } else {
            assert(((idx + j) % 8 + 1) % 8 == (idx + k) % 8) by (nonlinear_arith)
                requires
                    k == j + 1,
            ;
        }
    }
}

proof fn lemma_step_updates_index(idx: u8, cw: bool, k: nat, i: int)
    requires
        0 <= i < k,
    ensures
        step_updates(idx, cw, k)[i] == Action::Port(phase_update(idx_after(idx, cw, (i + 1) as nat))),
    decreases k,
{
    lemma_step_updates_len(idx, cw, (k - 1) as nat);
    if i < k - 1 {
        lemma_step_updates_index(idx, cw, (k - 1) as nat, i);
    }
}

/// One stepper tick with the stick up or down adds exactly `4000 / p`
/// thousandths of a step (`p` the current step period) and takes one half
/// step per whole thousand, keeping the remainder: the new accumulator
/// plus 1000 per step taken equals the old accumulator plus `4000 / p`.
/// Down turns counter-clockwise (phase + 1 per step), up clockwise (phase
/// - 1 per step), and each step drives the coils of the phase it reaches.
/// The idle time restarts.
pub proof fn lemma_stepper_accumulates(sv: SharedView)
    requires
        sv.joystick_dir == JoystickDir::Up || sv.joystick_dir == JoystickDir::Down,
        sv.step_period >= 1,
        sv.acc + 4000int / (sv.step_period as int) <= u32::MAX,
        sv.step_idx < 8,
    ensures
        stepper_result(sv).0.acc + 1000 * stepper_result(sv).1.len() == sv.acc + 4000int / (
        sv.step_period as int),
        stepper_result(sv).0.acc < 1000,
        stepper_result(sv).0.stepper_idle_ms == 0,
        stepper_result(sv).0.step_period == sv.step_period,
        sv.joystick_dir == JoystickDir::Down ==> stepper_result(sv).0.step_idx == (sv.step_idx
            + stepper_result(sv).1.len()) % 8,
        sv.joystick_dir == JoystickDir::Up ==> stepper_result(sv).0.step_idx == (sv.step_idx + 7
            * stepper_result(sv).1.len()) % 8,
        forall|i: int|
            0 <= i < stepper_result(sv).1.len() ==> #[trigger] stepper_result(sv).1[i]
                == Action::Port(
                PortUpdate {
                    port: Port::B,
                    clear: 0x3C,
                    set: spec_step_pattern(
                        (if sv.joystick_dir == JoystickDir::Down {
                            (sv.step_idx + i + 1) % 8
                        } else {
                            (sv.step_idx + 7 * (i + 1)) % 8
                        }) as u8,
                    ),
                },
            ),
{
    let cw = sv.joystick_dir == JoystickDir::Up;
    let total = sv.acc + 4000int / (sv.step_period as int);
    let k = (total / 1000) as nat;
    lemma_step_updates_len(sv.step_idx, cw, k);
    lemma_idx_after_closed(sv.step_idx, cw, k);
    assert forall|i: int| 0 <= i < k implies #[trigger] step_updates(sv.step_idx, cw, k)[i]
        == Action::Port(
        PortUpdate {
            port: Port::B,
            clear: 0x3C,
            set: spec_step_pattern(
                (if !cw {
                    (sv.step_idx + i + 1) % 8
                } else {
                    (sv.step_idx + 7 * (i + 1)) % 8
                }) as u8,
            ),
        },
    ) by {
        lemma_step_updates_index(sv.step_idx, cw, k, i);
        lemma_idx_after_closed(sv.step_idx, cw, (i + 1) as nat);
    }
}

/// With the stick neither up nor down, the stepper tick releases the coils
/// (PB2-PB5 cleared, nothing set), empties the accumulator, keeps the phase
/// and counts one more idle millisecond (saturating).
pub proof fn lemma_stepper_released(sv: SharedView)
    requires
        sv.joystick_dir != JoystickDir::Up,
        sv.joystick_dir != JoystickDir::Down,
    ensures
        stepper_result(sv).1 == seq![Action::Port(PortUpdate { port: Port::B, clear: 0x3C, set: 0 })],
        stepper_result(sv).0.acc == 0,
        stepper_result(sv).0.step_idx == sv.step_idx,
        stepper_result(sv).0.stepper_idle_ms == if sv.stepper_idle_ms < u32::MAX {
            sv.stepper_idle_ms + 1
        } else {
            sv.stepper_idle_ms as int
        },
{
}

/// The idle alert: whenever the stepper has stood still (idle time `t`
/// not zero) at least until the alert time and no melody plays after the
/// buzzer's step, the idle-buzzer tick starts the idle melody (middle,
/// low, middle, four steps each), sounds its first tone right after the
/// buzzer's own step effects, logs `idle=<t> ms ALERT`, and moves the alert
/// time five seconds on. Otherwise the melody only steps on, and the alert
/// time stays, or returns to ten seconds while the stepper moves. (The
/// tick must be able to run: the next alert time must fit in a u32.)
pub proof fn lemma_idle_alert(sv: SharedView)
    requires
        idle_buzzer_ok(sv),
    ensures
        ({
            let t = sv.stepper_idle_ms;
            let b = sv.buzzer.stepped();
            let r = idle_buzzer_result(sv);
            let n = sv.buzzer.step_actions().len() as int;
            (t != 0 && t >= sv.next_ms && !b.playing()) ==> {
                &&& r.0.next_ms == sv.next_ms + 5000
                &&& r.0.buzzer.notes == seq![(3u8, 4u8), (4u8, 4u8), (3u8, 4u8)]
                &&& r.0.buzzer.note_cnt == 3
                &&& r.0.buzzer.note_idx == 0
                &&& r.0.buzzer.note_ctr == 0
                &&& r.1.subrange(0, n) == sv.buzzer.step_actions()
                &&& r.1[n] == Action::Timer0Clock(3)
                &&& r.1.subrange(n + 1, n + 1 + idle_alert_line(t).len() as int) == uart_actions(
                    ascii_bytes("idle="@) + decimal(t as nat) + ascii_bytes(" ms ALERT\n"@),
                )
            }
        }),
        ({
            let t = sv.stepper_idle_ms;
            let b = sv.buzzer.stepped();
            let r = idle_buzzer_result(sv);
            !(t != 0 && t >= sv.next_ms && !b.playing()) ==> {
                &&& r.0.buzzer == b
                &&& r.0.next_ms == if t == 0 {
                    10000
                } else {
                    sv.next_ms
                }
                &&& r.1.subrange(0, sv.buzzer.step_actions().len() as int) == sv.buzzer.step_actions()
                &&& forall|i: int|
                    sv.buzzer.step_actions().len() <= i < r.1.len() ==> #[trigger] r.1[i] is Uart
            }
        }),
{
    let t = sv.stepper_idle_ms;
    let r = idle_buzzer_result(sv);
    let sa = sv.buzzer.step_actions();
    let n = sa.len() as int;
    let ticks = wrapped_inc(sv.log_ticks);
    let tail = if t > 0 && ticks % 20 == 0 {
        uart_actions(idle_line(t))
    } else {
        seq![]
    };
    if alert_due(sv) {
        let mid = spec_set_tone(CS_MID) + uart_actions(idle_alert_line(t));
        assert(r.1 == sa + mid + tail);
        assert(3u8 & 0x07u8 == 3u8) by (bit_vector);
        assert(mid[0] == Action::Timer0Clock(3));
        assert(r.1[n] == mid[0]);
        assert(r.1.subrange(0, n) =~= sa);
        assert(r.1.subrange(n + 1, n + 1 + idle_alert_line(t).len() as int) =~= uart_actions(
            idle_alert_line(t),
        ));
        assert(r.0.buzzer.notes =~= seq![(3u8, 4u8), (4u8, 4u8), (3u8, 4u8)]);
        assert(r.0.next_ms == sv.next_ms + 5000);
        assert(r.0.buzzer.note_cnt == 3);
        assert(r.0.buzzer.note_idx == 0);
        assert(r.0.buzzer.note_ctr == 0);
        assert(idle_alert_line(t) == ascii_bytes("idle="@) + decimal(t as nat) + ascii_bytes(" ms ALERT\n"@));
    } else {
        assert(r.1 =~= sa + tail);
        assert(r.1.subrange(0, n) =~= sa);
    }
}

/// The servo task puts the servo where the stick points (VRx), holding the
/// last position while the reading rests in the dead zone 400..=624, and
/// lights one LED per region: PD2 below 256, PD3 from 256 to 767, PD4 from
/// 768 up.
pub proof fn lemma_servo_leds(sv: SharedView)
    ensures
        ({
            let x = if sv.servo_adc < 400 || sv.servo_adc > 624 {
                sv.servo_adc
            } else {
                sv.last_x
            };
            let r = servo_led_result(sv);
            &&& r.0.last_x == x
            &&& r.1.len() == 2
            &&& r.1[0] == Action::Servo(spec_servo_ocr(x))
            &&& x < 256 ==> r.1[1] == Action::Port(PortUpdate { port: Port::D, clear: 0x1C, set: 0x04 })
            &&& 256 <= x < 768 ==> r.1[1] == Action::Port(PortUpdate { port: Port::D, clear: 0x1C, set: 0x08 })
            &&& 768 <= x ==> r.1[1] == Action::Port(PortUpdate { port: Port::D, clear: 0x1C, set: 0x10 })
        }),
{
}

/// The joystick task reads the stepper direction from VRy, up below 300,
/// down above 700, centred between, and keeps the raw VRx reading for the
/// servo.
pub proof fn lemma_joystick_task(sv: SharedView, input: TickInput)
    ensures
        input.vry < 300 ==> joystick_result(sv, input).joystick_dir == JoystickDir::Up,
        input.vry > 700 ==> joystick_result(sv, input).joystick_dir == JoystickDir::Down,
        300 <= input.vry <= 700 ==> joystick_result(sv, input).joystick_dir == JoystickDir::Center,
        joystick_result(sv, input).servo_adc == input.vrx,
        joystick_result(sv, input).step_period == sv.step_period,
{
}

/// The stepper LEDs (PB0, PD5, PD7) step through three phases: while the
/// stick is down they fill up PD5, PD5+PD7, then all three; while it is up
/// PB0, PB0+PD7, then all three; at rest they blink PD7, PB0+PD5, none.
pub proof fn lemma_stepper_led_chaser(sv: SharedView)
    requires
        sv.phase < 3,
    ensures
        ({
            let p = (sv.phase + 1) % 3;
            let r = stepper_led_result(sv);
            let pb = r.1[0]->Port_0.set;
            let pd = r.1[1]->Port_0.set;
            &&& r.0.phase == p
            &&& r.1.len() == 2
            &&& r.1[0] == Action::Port(PortUpdate { port: Port::B, clear: 0x01, set: pb })
            &&& r.1[1] == Action::Port(PortUpdate { port: Port::D, clear: 0xA0, set: pd })
            &&& sv.joystick_dir == JoystickDir::Down ==> (pb, pd) == if p == 0 {
                (0x00u8, 0x20u8)
            } else if p == 1 {
                (0x00u8, 0xA0u8)
            } else {
                (0x01u8, 0xA0u8)
            }
            &&& sv.joystick_dir == JoystickDir::Up ==> (pb, pd) == if p == 0 {
                (0x01u8, 0x00u8)
            } else if p == 1 {
                (0x01u8, 0x80u8)
            } else {
                (0x01u8, 0xA0u8)
            }
            &&& (sv.joystick_dir != JoystickDir::Up && sv.joystick_dir != JoystickDir::Down) ==> (
            pb,
            pd,
            ) == if p == 0 {
                (0x00u8, 0x80u8)
            } else if p == 1 {
                (0x01u8, 0x20u8)
            } else {
                (0x00u8, 0x00u8)
            }
        }),
{
}

/// The speed buttons: a new press of the faster button (PC1 low, not low at
/// the previous poll) shortens a period above 5 by 5 ms, a new press of
/// the slower button (PC0 low) lengthens a period below 30 by 5 ms; each
/// change is logged as `step_period=<p> ms/phase` and, with the buzzer on,
/// confirmed by the low tone (faster) or the middle tone (slower). A held
/// button does nothing more, and the buttons' levels are remembered.
pub proof fn lemma_speed_buttons(sv: SharedView, pinc: u8)
    ensures
        ({
            let inc = pinc & 0x02 == 0;
            let dec = pinc & 0x01 == 0;
            let r = button_speed_result(sv, pinc);
            let p1 = if inc && !sv.prev_inc && sv.step_period > 5 {
                sv.step_period - 5
            } else {
                sv.step_period as int
            };
            let p2 = if dec && !sv.prev_dec && p1 < 30 {
                p1 + 5
            } else {
                p1
            };
            &&& r.0.step_period == p2
            &&& r.0.prev_inc == inc
            &&& r.0.prev_dec == dec
            &&& (inc && !sv.prev_inc && sv.step_period > 5) ==> r.1.subrange(
                0,
                step_period_line(p1 as u32).len() as int,
            ) == uart_actions(
                ascii_bytes("step_period="@) + decimal(p1 as nat) + ascii_bytes(" ms/phase\n"@),
            )
            &&& (inc && !sv.prev_inc && sv.step_period > 5 && sv.buzzer_enabled) ==> r.1[step_period_line(
                p1 as u32,
            ).len() as int] == Action::Timer0Clock(4)
            &&& (!(inc && !sv.prev_inc && sv.step_period > 5) && !(dec && !sv.prev_dec && p1 < 30))
                ==> r.1 == Seq::<Action>::empty() && r.0.buzzer == sv.buzzer
        }),
{
    let a = faster(sv, pinc);
    assert(4u8 & 0x07u8 == 4u8) by (bit_vector);
    if inc_held(pinc) && !sv.prev_inc && sv.step_period > 5 {
        let l = step_period_line((sv.step_period - 5) as u32);
        let b = slower(a.0, pinc);
        assert(button_speed_result(sv, pinc).1 == a.1 + b.1);
        assert((a.1 + b.1).subrange(0, l.len() as int) =~= uart_actions(l));
        if sv.buzzer_enabled {
            assert((a.1 + b.1)[l.len() as int] == spec_set_tone(CS_LOW)[0]);
        }
    }
}

/// The board's tasks and their periods: the joystick every 10 ms, the
/// stepper every 1 ms, the stepper LEDs every 200 ms, the servo every
/// 50 ms, then the speed buttons and the idle buzzer every 50 ms when
/// enabled; all start in their start states with nothing counted.
pub proof fn lemma_board_task_periods(speed_buttons: bool, buzzer: bool)
    ensures
        board_tasks(speed_buttons, buzzer).len() == 4 + (if speed_buttons { 1int } else { 0 }) + (
        if buzzer { 1int } else { 0 }),
        board_tasks(speed_buttons, buzzer)[0].period == 10 && board_tasks(speed_buttons, buzzer)[0].tick
            == TickFn::Joystick,
        board_tasks(speed_buttons, buzzer)[1].period == 1 && board_tasks(speed_buttons, buzzer)[1].tick
            == TickFn::Stepper,
        board_tasks(speed_buttons, buzzer)[2].period == 200 && board_tasks(speed_buttons, buzzer)[2].tick
            == TickFn::StepperLed,
        board_tasks(speed_buttons, buzzer)[3].period == 50 && board_tasks(speed_buttons, buzzer)[3].tick
            == TickFn::ServoLed,
        speed_buttons ==> board_tasks(speed_buttons, buzzer)[4].period == 50 && board_tasks(
            speed_buttons,
            buzzer,
        )[4].tick == TickFn::ButtonSpeed,
        buzzer ==> board_tasks(speed_buttons, buzzer)[board_tasks(speed_buttons, buzzer).len() - 1].period
            == 50 && board_tasks(speed_buttons, buzzer)[board_tasks(speed_buttons, buzzer).len()
            - 1].tick == TickFn::IdleBuzzer,
        forall|i: int|
            0 <= i < board_tasks(speed_buttons, buzzer).len() ==> #[trigger] board_tasks(
                speed_buttons,
                buzzer,
            )[i].elapsed_time == 0 && is_start(board_tasks(speed_buttons, buzzer)[i].current_state)
                && fits(board_tasks(speed_buttons, buzzer)[i].tick, board_tasks(speed_buttons, buzzer)[i].current_state),
{
}

/// While the stepper stands still the idle time is logged as
/// `idle=<t> ms` once every twenty idle-buzzer ticks (one second), at the
/// end of the tick's effects; with the stepper moving nothing is logged.
pub proof fn lemma_idle_log(sv: SharedView)
    requires
        idle_buzzer_ok(sv),
    ensures
        ({
            let t = sv.stepper_idle_ms;
            let ticks = if sv.log_ticks == u32::MAX { 0 } else { sv.log_ticks + 1 };
            let r = idle_buzzer_result(sv);
            let line = uart_actions(ascii_bytes("idle="@) + decimal(t as nat) + ascii_bytes(" ms\n"@));
            &&& r.0.log_ticks == ticks
            &&& (t > 0 && ticks % 20 == 0) ==> r.1.subrange(r.1.len() - line.len(), r.1.len() as int) == line
            &&& !(t > 0 && ticks % 20 == 0) && !(t != 0 && t >= sv.next_ms && !sv.buzzer.stepped().playing())
                ==> r.1 == sv.buzzer.step_actions()
        }),
{
    let t = sv.stepper_idle_ms;
    let r = idle_buzzer_result(sv);
    let sa = sv.buzzer.step_actions();
    let mid = if alert_due(sv) {
        spec_set_tone(CS_MID) + uart_actions(idle_alert_line(t))
    } else {
        seq![]
    };
    let ticks = wrapped_inc(sv.log_ticks);
    if t > 0 && ticks % 20 == 0 {
        let line = uart_actions(idle_line(t));
        assert(r.1 == sa + mid + line);
        assert(r.1.subrange(r.1.len() - line.len(), r.1.len() as int) =~= line);
    } else {
        assert(r.1 =~= sa + mid);
    }
}

} // verus!
