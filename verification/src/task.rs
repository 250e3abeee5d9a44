use vstd::prelude::*;
use crate::rgb::RGBDisplay;
use crate::button::ButtonPress;
use crate::calibrator::Calibrator;
use crate::ports::Action;
use crate::task_initer::{Shared, SharedView, TickInput, tick_ok, tick_result, run_tick};

verus! {

pub enum SonarState {
    Start,
    Measure,
}

pub enum DisplayState {
    Start,
    Active,
}

pub enum LEDState {
    Start,
    LEDDisplay(RGBDisplay),
}

pub enum ButtonState {
    Start,
    Button(ButtonPress),
}

pub enum LEDSelectorState {
    Start,
    Active,
}

pub enum LEDDriverState {
    Start,
    Active,
}

pub enum CalibratorState {
    Start,
    Active(Calibrator),
}

pub enum JoystickTaskState {
    Start,
    Active,
}

pub enum LCDTaskState {
    Start,
    Active,
}

pub enum StepperTaskState {
    Start,
    Active,
}

pub enum StepperLedState {
    Start,
    Active,
}

pub enum ServoLedState {
    Start,
    Active,
}

pub enum ButtonSpeedState {
    Start,
    Active,
}

pub enum IdleBuzzerState {
    Start,
    Active,
}

/// The state of a task's state machine.
pub enum State {
    Sonar(SonarState),
    Display(DisplayState),
    LED(LEDState),
    Button(ButtonState),
    LEDSelector(LEDSelectorState),
    LEDDriver(LEDDriverState),
    Calibrator(CalibratorState),
    Joystick(JoystickTaskState),
    LCDDisplay(LCDTaskState),
    StepperCtrl(StepperTaskState),
    StepperLed(StepperLedState),
    ServoLed(ServoLedState),
    ButtonSpeed(ButtonSpeedState),
    IdleBuzzer(IdleBuzzerState),
}

/// Which tick function drives a task.
#[derive(Clone, Copy, PartialEq, Eq, Structural, Debug)]
pub enum TickFn {
    /// Reads the joystick every 10 ms.
    Joystick,
    /// Drives the stepper from the joystick every 1 ms.
    Stepper,
    /// Animates the three stepper LEDs every 200 ms.
    StepperLed,
    /// Positions the servo and lights its LEDs every 50 ms.
    ServoLed,
    /// Changes the step period on button presses every 50 ms.
    ButtonSpeed,
    /// Plays the buzzer and raises the idle alert every 50 ms.
    IdleBuzzer,
}

/// A periodic task: every `period` ticks of the scheduler its tick
/// function moves `current_state` one step.
pub struct Task {
    pub current_state: State,
    pub period: u32,
    pub elapsed_time: u32,
    pub tick: TickFn,
}

impl Task {
    pub fn new(p: u32, start_state: State, tick: TickFn) -> (r: Self)
        ensures
            r.current_state == start_state,
            r.period == p,
            r.elapsed_time == 0,
            r.tick == tick,
    {
        Self { current_state: start_state, period: p, elapsed_time: 0, tick }
    }

    /// Whether the task's period has run out.
    pub open spec fn due(&self) -> bool {
        self.elapsed_time >= self.period
    }

    /// Whether the task's period has run out.
    pub fn is_due(&self) -> (r: bool)
        ensures
            r == self.due(),
    {
        self.elapsed_time >= self.period
    }

    /// Counts `amt` scheduler ticks against the period.
    pub fn update_time(&mut self, amt: u32)
        requires
            old(self).elapsed_time + amt <= u32::MAX,
        ensures
            final(self).elapsed_time == old(self).elapsed_time + amt,
            final(self).period == old(self).period,
            final(self).tick == old(self).tick,
            final(self).current_state == old(self).current_state,
    {
        self.elapsed_time += amt;
    }

    /// When the period has run out: restarts the count and runs the tick
    /// function once, returning its effects. Otherwise does nothing.
    pub fn ticker(&mut self, shared: &mut Shared, input: TickInput) -> (r: Vec<Action>)
        requires
            old(self).due() ==> tick_ok(old(self).tick, old(self).current_state, old(shared)@, input),
        ensures
            final(self).period == old(self).period,
            final(self).tick == old(self).tick,
            old(self).due() ==> final(self).elapsed_time == 0 && (
            final(self).current_state,
            final(shared)@,
            r@,
            ) == tick_result(old(self).tick, old(self).current_state, old(shared)@, input),
            !old(self).due() ==> final(self).elapsed_time == old(self).elapsed_time
                && final(self).current_state == old(self).current_state && final(shared)@ == old(
                shared,
            )@ && r@ == Seq::<Action>::empty(),
    {
        if self.elapsed_time >= self.period {
            self.elapsed_time = 0;
            let (next, actions) = run_tick(self.tick, &self.current_state, shared, input);
            self.current_state = next;
            actions
        } else {
            Vec::new()
        }
    }

    /// Counts `amt` scheduler ticks, then runs the tick function if the
    /// period has run out.
    pub fn update_time_and_tick(&mut self, amt: u32, shared: &mut Shared, input: TickInput) -> (r:
        Vec<Action>)
        requires
            old(self).elapsed_time + amt <= u32::MAX,
            old(self).elapsed_time + amt >= old(self).period ==> tick_ok(
                old(self).tick,
                old(self).current_state,
                old(shared)@,
                input,
            ),
        ensures
            final(self).period == old(self).period,
            final(self).tick == old(self).tick,
            old(self).elapsed_time + amt >= old(self).period ==> final(self).elapsed_time == 0 && (
            final(self).current_state,
            final(shared)@,
            r@,
            ) == tick_result(old(self).tick, old(self).current_state, old(shared)@, input),
            old(self).elapsed_time + amt < old(self).period ==> final(self).elapsed_time == old(
                self,
            ).elapsed_time + amt && final(self).current_state == old(self).current_state
                && final(shared)@ == old(shared)@ && r@ == Seq::<Action>::empty(),
    {
        self.update_time(amt);
        self.ticker(shared, input)
    }
}

/// The elapsed count after one scheduler tick of one millisecond.
pub open spec fn time_step(elapsed: u32, period: u32) -> u32 {
    if elapsed + 1 >= period {
        0
    } else {
        (elapsed + 1) as u32
    }
}

/// Whether the tick function runs on the next scheduler tick.
pub open spec fn fires(elapsed: u32, period: u32) -> bool {
    elapsed + 1 >= period
}

/// The elapsed count of a fresh task after `k` scheduler ticks.
pub open spec fn elapsed_after(period: u32, k: nat) -> u32
    decreases k,
{
    if k == 0 {
        0
    } else {
        time_step(elapsed_after(period, (k - 1) as nat), period)
    }
}

/// A task with period `p` (at least one) runs on every `p`-th scheduler
/// tick: the first `p - 1` ticks only count, the `p`-th runs its tick
/// function and starts the count again.
pub proof fn lemma_period(period: u32, k: nat)
    requires
        period >= 1,
        k < period,
    ensures
        elapsed_after(period, k) == k,
        fires(elapsed_after(period, k), period) <==> k == period - 1,
        elapsed_after(period, (k + 1) as nat) == if k == period - 1 {
            0
        } else {
            k + 1
        },
    decreases k,
{
    if k > 0 {
        lemma_period(period, (k - 1) as nat);
    }
}

/// A task whose period is zero runs on every tick.
pub proof fn lemma_zero_period(elapsed: u32)
    ensures
        fires(elapsed, 0),
        time_step(elapsed, 0) == 0,
{
}

} // verus!
