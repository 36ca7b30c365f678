//! Core of a cycle-accurate emulator for the 8-bit handheld console built
//! around the Sharp LR35902 CPU: register file, memory bus with bank-switching
//! mappers, CPU interpreter, pixel processing unit, audio unit, timer, DMA and
//! joypad, all driven in lock-step from a shared 4.194304 MHz clock.
//!
//! The host-facing edges (window, audio device, keyboard, files) live outside
//! this crate; the core exchanges plain values with them: a framebuffer of
//! 2-bit colors, digital audio sample quadruples, an 8-bit key matrix and ROM
//! or save images as byte vectors.
#![allow(non_snake_case)]
#![allow(non_camel_case_types)]

pub mod bits;
pub mod constants;
pub mod cpu;
pub mod gameboy;
pub mod graphics;
pub mod interrupt;
pub mod joypad;
pub mod laws;
pub mod mappers;
pub mod memory;
pub mod opcodes;
pub mod registers;
pub mod sound;
pub mod sprites;
