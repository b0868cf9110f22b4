//! The raw samples that a stream gathers per channel between analyses.
use crate::utils::{channel_of, copy_range, extract_channel};
use vstd::prelude::*;

verus! {

/// The buffers that a push starts from: the ones there are, or a fresh empty
/// one per channel where the number of channels changed.
pub open spec fn buffers_for<T>(buffers: Seq<Seq<T>>, channel_count: int) -> Seq<Seq<T>> {
    if buffers.len() == channel_count {
        buffers
    } else {
        Seq::new(channel_count as nat, |c: int| Seq::<T>::empty())
    }
}

/// Per-channel accumulation of raw samples awaiting analysis.
pub struct RawBuffers<T> {
    raw_buffer: Vec<Vec<T>>,
}

impl<T> View for RawBuffers<T> {
    type V = Seq<Seq<T>>;

    closed spec fn view(&self) -> Seq<Seq<T>> {
        self.raw_buffer@.map_values(|b: Vec<T>| b@)
    }
}

impl<T: Copy> RawBuffers<T> {
    /// No channel and no sample yet.
    pub fn new() -> (r: Self)
        ensures
            r@ == Seq::<Seq<T>>::empty(),
    {
        let r = RawBuffers { raw_buffer: Vec::new() };
        assert(r@ =~= Seq::<Seq<T>>::empty());
        r
    }

    /// The number of channels held.
    pub fn channel_count(&self) -> (r: usize)
        ensures
            r == self@.len(),
    {
        self.raw_buffer.len()
    }

    /// The samples that `channel` holds.
    pub fn channel(&self, channel: usize) -> (r: Vec<T>)
        requires
            channel < self@.len(),
        ensures
            r@ == self@[channel as int],
    {
        let b = &self.raw_buffer[channel];
        copy_range(b.as_slice(), 0, b.len())
    }

    /// Splits the interleaved `data` into `channel_count` channels and
    /// appends each to its buffer. Where the number of channels changed, the
    /// buffers start again empty.
    pub fn push_data(&mut self, data: &[T], channel_count: usize)
        requires
            channel_count > 0,
        ensures
            final(self)@.len() == channel_count,
            forall|c: int|
                0 <= c < channel_count ==> #[trigger] final(self)@[c] == buffers_for(
                    old(self)@,
                    channel_count as int,
                )[c] + channel_of(data@, channel_count as int, c),
    {
        let ghost start = buffers_for(old(self)@, channel_count as int);
        if self.raw_buffer.len() != channel_count {
            let mut fresh: Vec<Vec<T>> = Vec::with_capacity(channel_count);
            let mut c: usize = 0;
            while c < channel_count
                invariant
                    c <= channel_count,
                    fresh@.len() == c,
                    forall|i: int| 0 <= i < c ==> (#[trigger] fresh@[i])@ == Seq::<T>::empty(),
                decreases channel_count - c,
            {
                fresh.push(Vec::new());
                c += 1;
            }
            self.raw_buffer = fresh;
        }
        assert(self@ =~= start);
        assert forall|i: int| 0 <= i < channel_count implies #[trigger] self.raw_buffer@[i]@
            == start[i] by {
            assert(self@[i] == self.raw_buffer@[i]@);
        }
        let mut c: usize = 0;
        while c < channel_count
            invariant
                c <= channel_count,
                self.raw_buffer@.len() == channel_count,
                start.len() == channel_count,
                forall|i: int|
                    0 <= i < c ==> #[trigger] self.raw_buffer@[i]@ == start[i] + channel_of(
                        data@,
                        channel_count as int,
                        i,
                    ),
                forall|i: int| c <= i < channel_count ==> #[trigger] self.raw_buffer@[i]@ == start[i],
            decreases channel_count - c,
        {
            let mut samples = extract_channel(data, channel_count, c);
            self.raw_buffer[c].append(&mut samples);
            c += 1;
        }
    }

    /// Where `channel` holds more than `window` samples, drops its oldest
    /// ones down to the newest `window` and returns a copy of those;
    /// otherwise changes nothing and returns `None`.
    pub fn take_window(&mut self, channel: usize, window: usize) -> (r: Option<Vec<T>>)
        ensures
            channel < old(self)@.len() && old(self)@[channel as int].len() > window ==> {
                let b = old(self)@[channel as int];
                let w = b.skip(b.len() - window);
                &&& r is Some
                &&& r->0@ == w
                &&& final(self)@ == old(self)@.update(channel as int, w)
            },
            !(channel < old(self)@.len() && old(self)@[channel as int].len() > window) ==> {
                &&& r is None
                &&& final(self)@ == old(self)@
            },
    {
        if channel < self.raw_buffer.len() && self.raw_buffer[channel].len() > window {
            let len = self.raw_buffer[channel].len();
            let kept = self.raw_buffer[channel].split_off(len - window);
            self.raw_buffer[channel] = kept;
            let w = copy_range(self.raw_buffer[channel].as_slice(), 0, window);
            assert(self.raw_buffer@[channel as int]@ =~= w@);
            assert forall|i: int| 0 <= i < self@.len() implies #[trigger] self@[i] == old(
                self,
            )@.update(channel as int, w@)[i] by {
                if i != channel {
                    assert(self.raw_buffer@[i] == old(self).raw_buffer@[i]);
                }
            }
            assert(self@ =~= old(self)@.update(channel as int, w@));
            Some(w)
        } else {
            None
        }
    }
}

} // verus!
