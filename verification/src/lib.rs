//! A WonderSwan emulator library: the cartridge and its mapper, the memory and
//! I/O buses, the NEC V30MZ CPU, the DMAs, the sound unit and the display chip.
//!
//! Every component is owned by the system-on-chip (`soc::SoC`), which hands the
//! buses to the component it ticks.
#![allow(non_snake_case)]
#![allow(non_camel_case_types)]
#![allow(unused_parens)]

pub mod bits;
pub mod cartridge;
pub mod bus;
pub mod display;
pub mod cpu;
pub mod dma;
pub mod sound;
pub mod soc;
pub mod rom;
pub mod laws;
pub mod op_laws;
