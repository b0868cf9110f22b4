//! What the library knows of audio capture: which device to open, how
//! opening it can fail, and the hand-off of captured samples to a reader.
pub mod capture;
pub mod config;
