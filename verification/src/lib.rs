//! Protocol core for the UD-CO2S environmental sensor.
//!
//! The sensor speaks a tiny ASCII protocol over a serial line: the host asks
//! it to start streaming, reads lines that carry a CO2 concentration, a
//! relative humidity and a temperature, and asks it to stop before letting go
//! of the device. This crate holds everything about that exchange that can be
//! decided without touching a device: the command bytes, the line grammar, the
//! two output encodings, and the state machines that say what a driver has to
//! do next. Performing the reads and writes is left to the caller.

pub mod command;
pub mod grammar;
pub mod poll;
pub mod reading;
pub mod text;
pub mod traces;
pub mod watcher;
