//! A verified core for an Intel 8080 emulator, sized for the 1978 Space
//! Invaders cabinet.
//!
//! The processor state (registers, flags, 64 KiB memory, interrupt latch) is
//! mirrored by a ghost model, and every instruction's effect on that model is
//! stated by a spec-level transition function which `CPU::tick` is proved to
//! implement.  The cabinet's port bus (shift register, input latches) is
//! modelled and verified the same way; only the host shell (window, keyboard,
//! ROM file) stays outside the library.

pub mod model;
pub mod register;
pub mod memory;
pub mod cpu;
pub mod invaders;
pub mod machine;
pub mod laws;
