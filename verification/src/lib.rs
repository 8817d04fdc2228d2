//! Signal I/O core of an instrument controller: a hardware-timed,
//! double-buffered waveform output channel, a register-level protocol
//! driver for a direct digital synthesizer chip, and the exact
//! conversions between output codes and physical units.

pub mod ad9912;
pub mod dac;
pub mod telemetry;
