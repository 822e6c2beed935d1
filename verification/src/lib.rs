//! A CHIP-8 virtual machine core: a fetch-decode-execute interpreter over a
//! 4096-byte memory, sixteen 8-bit registers, a 16-entry call stack, two
//! saturating countdown timers, a 16-key keypad and a 64 x 32 monochrome
//! framebuffer. Every state change is specified against a mathematical model
//! of the machine, and the executor is proved to implement that model.
//!
//! The core owns no clock and no device: a driver loads a program, calls
//! `execute_inst` at its chosen rate, ticks the timers at 60 Hz and feeds key
//! state in; it reads the framebuffer back out to render.

pub mod chip;
pub mod config;
pub mod display;
pub mod error;
pub mod inst;
pub mod screen;
pub mod tui;
