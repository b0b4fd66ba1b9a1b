//! Nodes that transform frames on the CPU.

pub mod bitdepth_convert;
