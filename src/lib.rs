//! Typed memory-mapped registers of 8-bit home-computer chipsets: bit fields,
//! register blocks bound to base addresses, and per-machine profiles.

pub mod bits;
pub mod c64;
pub mod cia;
pub mod mega65;
pub mod memory;
pub mod sid;
pub mod vic2;
pub mod view;
