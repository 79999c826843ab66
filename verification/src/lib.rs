//! Decisions of a compression dispatcher, free of input and output.
//!
//! A request to compress a file or a directory is carried out by a caller
//! that probes the file system, starts the external tools and delivers the
//! events. What to do next, what to tell the listener and how the request
//! ends is decided here.

pub mod adapter;
pub mod backend;
pub mod dispatcher;
pub mod dispatcher_laws;
pub mod error;
pub mod event;
pub mod naming;
pub mod packer;
pub mod percent;
pub mod process;
pub mod progress;
pub mod text;
pub mod timestamp;
pub mod zstd;
pub mod zstd_laws;
