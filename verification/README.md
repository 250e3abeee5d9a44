# board_tasks

The logic of an ATmega328P lab board, verified with Verus: a periodic task
scheduler (joystick, stepper, stepper LEDs, servo, speed buttons, idle
buzzer) and the decision logic of its drivers (seven-segment display, RGB
LED, stepper, servo, buzzer, HD44780 LCD, UART logger, sonar echo timing,
calibrator, buttons).

`src/` holds only pure functions: they take the values read from the
hardware and return the register updates to carry out (`ports::Action`,
`ports::PortUpdate`, `lcd::LcdOp`, byte strings for the UART). `app/` is the
firmware around it: register access, the timer interrupt that runs the
tasks, and the floating-point sonar arithmetic.
