//! Sinks that show frames on screen.

pub mod display;
