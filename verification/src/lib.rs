//! The verified core of PicoSine, a plugin that emits a continuous sine wave
//! at a frequency the host can adjust.
//!
//! Floating-point values never enter this crate: every frequency, rate and
//! gain is carried as the IEEE 754 binary64 bit pattern of the value, in a
//! `u64`. The caller converts at the boundary and evaluates the sine itself.

pub mod atomic_f64;
pub mod audio_ports;
pub mod audio_processor;
pub mod binary64;
pub mod decimal;
pub mod main_thread;
pub mod params;
pub mod plugin;
pub mod shared;
