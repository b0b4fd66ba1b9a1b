//! The substrate that every node builds on.

pub mod buffers;
pub mod error;
pub mod frame;
pub mod gpu_util;
pub mod node;
pub mod parametrizable;
pub mod payload;
pub mod prioritized_executor;
pub mod processing_context;
pub mod processing_graph;
pub mod puller;
