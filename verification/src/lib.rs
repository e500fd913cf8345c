//! Cathode-8: the emulation core of an NES emulator, with its cartridge parser,
//! memory mappers, picture processing unit and audio channel state machines.

pub mod controls;
pub mod nes;
pub mod tools;
