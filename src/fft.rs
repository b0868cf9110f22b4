//! Helpers around the frequency transform.
use crate::utils::copy_range;
use vstd::prelude::*;

verus! {

/// Keeps the lower half of a transform's output, bins 0 to `len / 2`: the
/// upper half of the transform of a real signal mirrors it.
pub fn remove_mirroring<T: Copy>(data: &[T]) -> (r: Vec<T>)
    requires
        data@.len() > 0,
    ensures
        r@ == data@.take(data@.len() as int / 2 + 1),
{
    let len = data.len() / 2 + 1;
    copy_range(data, 0, len)
}

} // verus!
