//! Cycle-stepped emulation of the MOS 6502 processor family, verified with Verus.
pub mod consts;
pub mod cpu;
pub mod memory;
