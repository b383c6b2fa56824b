//! The memory and I/O buses, with the devices that only the I/O bus reaches.
pub mod eeprom;
pub mod io_bus;
pub mod keypad;
pub mod mem_bus;
