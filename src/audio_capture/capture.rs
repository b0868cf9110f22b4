//! Devices, capture errors, and the buffer between a capture stream and the
//! reader that asks for its samples.
use vstd::prelude::*;

verus! {

/// Why a capture could not be set up.
#[derive(Clone, Debug)]
pub enum Error {
    DeviceNotFound,
    DeviceNotAvailable,
    UnsupportedConfig,
    BackendSpecific(String),
}

/// The device to capture from.
#[derive(Clone, Copy, Debug, PartialEq, Eq, Structural)]
pub enum Device {
    DefaultInput,
    DefaultOutput,
    /// The input device at this index of the host's list.
    Id(usize),
}

/// Samples that a capture stream delivered and no reader has taken yet.
pub struct CaptureBuffer<T> {
    data: Vec<T>,
}

impl<T> View for CaptureBuffer<T> {
    type V = Seq<T>;

    closed spec fn view(&self) -> Seq<T> {
        self.data@
    }
}

impl<T> CaptureBuffer<T> {
    /// Nothing delivered yet.
    pub fn new() -> (r: Self)
        ensures
            r@ == Seq::<T>::empty(),
    {
        CaptureBuffer { data: Vec::new() }
    }

    /// Keeps samples that the capture stream delivered, after those before.
    pub fn send_data(&mut self, data: Vec<T>)
        ensures
            final(self)@ == old(self)@ + data@,
    {
        let mut data = data;
        self.data.append(&mut data);
    }

    /// Hands every sample delivered so far to the reader, or `None` where
    /// there is none; either way nothing is left afterwards.
    pub fn receive_data(&mut self) -> (r: Option<Vec<T>>)
        ensures
            old(self)@.len() > 0 ==> r is Some && r->0@ == old(self)@,
            old(self)@.len() == 0 ==> r is None,
            final(self)@ == Seq::<T>::empty(),
    {
        if self.data.len() == 0 {
            None
        } else {
            let mut out: Vec<T> = Vec::new();
            std::mem::swap(&mut out, &mut self.data);
            Some(out)
        }
    }
}

} // verus!
