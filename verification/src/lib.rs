//! Batch image recompression: the rules that pick a JPEG quality from the size
//! of the source, find the images under an input path, place each output file,
//! drive one file through decode and encode, and add up what was saved.

pub mod args;
pub mod codec;
pub mod compressor;
pub mod dispatcher;
pub mod file_collector;
pub mod paths;
pub mod quality;
pub mod replay;
pub mod report;
pub mod stats;
