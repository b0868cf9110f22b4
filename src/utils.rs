//! General helpers on sample buffers.
use vstd::prelude::*;

verus! {

/// How many samples of an interleaved buffer of `len` samples with
/// `channel_count` channels belong to `channel`.
pub open spec fn channel_len(len: int, channel_count: int, channel: int) -> int {
    if channel < len {
        (len - 1 - channel) / channel_count + 1
    } else {
        0
    }
}

/// The samples of one channel of an interleaved buffer: sample `k` of
/// `channel` stands at `k * channel_count + channel`.
pub open spec fn channel_of<T>(data: Seq<T>, channel_count: int, channel: int) -> Seq<T> {
    Seq::new(
        channel_len(data.len() as int, channel_count, channel) as nat,
        |k: int| data[k * channel_count + channel],
    )
}

/// A copy of `data[from..to]`.
pub(crate) fn copy_range<T: Copy>(data: &[T], from: usize, to: usize) -> (r: Vec<T>)
    requires
        from <= to <= data@.len(),
    ensures
        r@ == data@.subrange(from as int, to as int),
{
    let mut r: Vec<T> = Vec::with_capacity(to - from);
    let mut i: usize = from;
    while i < to
        invariant
            from <= i <= to <= data@.len(),
            r@ == data@.subrange(from as int, i as int),
        decreases to - i,
    {
        r.push(data[i]);
        i += 1;
        assert(r@ =~= data@.subrange(from as int, i as int));
    }
    r
}

/// The samples of `channel` in an interleaved buffer.
pub(crate) fn extract_channel<T: Copy>(data: &[T], channel_count: usize, channel: usize) -> (r:
    Vec<T>)
    requires
        channel < channel_count,
    ensures
        r@ == channel_of(data@, channel_count as int, channel as int),
{
    let len = data.len();
    let n = channel_count as u128;
    let mut r: Vec<T> = Vec::new();
    let mut k: u128 = channel as u128;
    let ghost mut j: int = 0;
    while k < len as u128
        invariant
            channel < channel_count,
            n == channel_count,
            len == data@.len(),
            j >= 0,
            k == channel + j * n,
            r@.len() == j,
            j > 0 ==> (j - 1) * n + channel < len,
            forall|m: int| 0 <= m < j ==> #[trigger] r@[m] == data@[m * n + channel],
        decreases len + n - k,
    {
        r.push(data[k as usize]);
        proof {
            assert(r@[j] == data@[j * n + channel]);
            assert(k + n == channel + (j + 1) * n) by (nonlinear_arith)
                requires
                    k == channel + j * n,
            ;
            j = j + 1;
        }
        k = k + n;
    }
    proof {
        let cc = channel_count as int;
        let c = channel as int;
        if c < len {
            let rest = len - 1 - c;
            assert(j > 0);
            assert((j - 1) * cc <= rest);
            assert(rest < (j - 1) * cc + cc) by (nonlinear_arith)
                requires
                    c + j * cc >= len,
                    rest == len - 1 - c,
            ;
            vstd::arithmetic::div_mod::lemma_fundamental_div_mod_converse(
                rest,
                cc,
                j - 1,
                rest - (j - 1) * cc,
            );
        } else {
            assert(j == 0) by (nonlinear_arith)
                requires
                    j > 0 ==> (j - 1) * cc + c < len,
                    c >= len,
                    j >= 0,
                    cc > 0,
            ;
        }
        assert(r@ =~= channel_of(data@, cc, c));
    }
    r
}

/// Separates an interleaved buffer into one buffer per channel.
pub fn seperate_channels<T: Copy>(data: &[T], channel_count: usize) -> (r: Vec<Vec<T>>)
    requires
        channel_count > 0,
    ensures
        r@.len() == channel_count,
        forall|c: int|
            0 <= c < channel_count ==> #[trigger] r@[c]@ == channel_of(
                data@,
                channel_count as int,
                c,
            ),
{
    let mut r: Vec<Vec<T>> = Vec::with_capacity(channel_count);
    let mut c: usize = 0;
    while c < channel_count
        invariant
            c <= channel_count,
            r@.len() == c,
            forall|i: int|
                0 <= i < c ==> #[trigger] r@[i]@ == channel_of(data@, channel_count as int, i),
        decreases channel_count - c,
    {
        let ch = extract_channel(data, channel_count, c);
        r.push(ch);
        c += 1;
    }
    r
}

} // verus!
