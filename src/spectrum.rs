//! Settings and per-channel sample bookkeeping of the spectrum stream.
pub mod config;
pub mod stream;
