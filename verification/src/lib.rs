//! Color-temperature control engine for a display.
//!
//! The crate converts between a display's raw gamma-ramp state and a
//! semantic (Kelvin temperature, brightness) pair, and computes, for any
//! calendar date and clock time, the Kelvin value a day/night schedule
//! should currently apply.  Everything here is pure computation over plain
//! integers and strings; reading the clock, talking to the display server
//! and detecting the system timezone are left to the binary that drives
//! the library.
//!
//! Brightness and gamma factors are held in integer fixed point (see
//! `gamma` and `fixed`), so the whole engine verifies without floating
//! point.

pub mod fixed;
pub mod text;
pub mod tz;
pub mod schedule;
pub mod engine;
pub mod fmt;
pub mod gamma;
