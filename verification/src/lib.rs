//! Board logic for an ATmega328P lab controller: a cooperative task
//! scheduler and the decision logic of its peripherals (seven-segment
//! display, RGB LED, stepper, servo, buzzer, HD44780 LCD, UART logger,
//! joystick and buttons). Every function here is pure: it takes the values
//! read from the hardware and returns the register updates to perform.

pub mod ports;
pub mod display;
pub mod logger;
pub mod lcd;
pub mod rgb;
pub mod stepper;
pub mod servo;
pub mod joystick;
pub mod buzzer;
pub mod button;
pub mod calibrator;
pub mod sonar;
pub mod task;
pub mod task_list;
pub mod task_initer;
