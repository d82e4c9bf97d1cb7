//! Batch extraction of still frames from a tree of videos through an
//! external decoder. The library decides; the caller runs the decoder and
//! touches the file system, as `batch::Batch` asks.
pub mod batch;
pub mod frames;
pub mod locate;
pub mod paths;
pub mod probe;
pub mod text;
