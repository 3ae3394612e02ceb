//! Resetting a block of samples to its rest level.

use vstd::prelude::*;

verus! {

/// A block of `len` samples that all sit at the level `silence`.
pub open spec fn silent<T>(len: nat, silence: T) -> Seq<T> {
    Seq::new(len, |i: int| silence)
}

/// Sets every sample of `data` to `silence`.
pub fn write_silence<T: Copy>(data: &mut [T], silence: T)
    ensures
        final(data)@ == silent(old(data)@.len(), silence),
{
    let mut i: usize = 0;
    while i < data.len()
        invariant
            i <= data@.len(),
            data@.len() == old(data)@.len(),
            forall|k: int| 0 <= k < i ==> #[trigger] data@[k] == silence,
        decreases data@.len() - i,
    {
        data[i] = silence;
        i += 1;
    }
}

} // verus!
