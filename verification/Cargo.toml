[package]
name = "board_tasks"
version = "0.1.0"
edition = "2021"
publish = false

[dependencies]
heapless = "0.8"
avr-device = { version = "*", features = ["atmega328p", "rt"] }
panic-halt = "*"
