//! Core of a pull-based, prioritized video-frame pipeline for raw cinema
//! footage: the frame model, the scheduling key, the bit-depth conversion and
//! the decisions that the processing nodes take around their I/O.

pub mod gpu;
pub mod nodes_cpu;
pub mod nodes_gpu;
pub mod nodes_io;
pub mod pipeline_processing;
pub mod raw_video_io;
pub mod text;
