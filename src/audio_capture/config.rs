//! Settings of an audio capture.
use vstd::prelude::*;

verus! {

/// Settings of an audio capture.
#[derive(Clone, Debug)]
pub struct Config {
    pub sample_rate: Option<u32>,
    pub latency: Option<u32>,
    pub device: String,
    pub buffer_size: u32,
    pub max_buffer_size: u32,
}

impl Default for Config {
    /// The default device, no fixed sample rate or latency, buffers of 100
    /// samples growing up to 2000.
    fn default() -> (r: Config)
        ensures
            r.sample_rate is None,
            r.latency is None,
            r.device@ == "default"@,
            r.buffer_size == 100,
            r.max_buffer_size == 2000,
    {
        Config {
            sample_rate: None,
            latency: None,
            device: String::from_str("default"),
            buffer_size: 100,
            max_buffer_size: 2000,
        }
    }
}

} // verus!
