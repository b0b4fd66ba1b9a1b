//! Sources that take raw frames from outside the process.

pub mod reader_tcp;
