//! Nodes that transform frames on the GPU: what each of them binds,
//! pushes and dispatches. Recording and submitting is left to the caller.

pub mod calibrate;
pub mod histogram;
