//! Miscellaneous utilities: running minimum and maximum trackers, printable
//! byte strings, file type and compression level selection, and the stages of
//! a batched line-delimited JSON pipeline.

pub mod byteascii;
pub mod chronoext;
pub mod codec;
pub mod error;
pub mod fs;
pub mod jsonl;
pub mod minmax;
pub mod path;

pub use crate::minmax::{Max, Min};
