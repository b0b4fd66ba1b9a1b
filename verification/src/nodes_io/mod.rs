//! Nodes that bring frames into the pipeline from files.

pub mod reader_cinema_dng;
