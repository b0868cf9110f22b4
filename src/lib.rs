//! Turns bursty audio sample delivery into a steady stream, and holds the
//! integer-valued bookkeeping of a spectrum visualiser: rate matching,
//! channel de-interleaving, sample windows and capture hand-off.
pub mod audio_capture;
pub mod clock;
pub mod distributor;
pub mod fft;
pub mod spectrum;
pub mod utils;
