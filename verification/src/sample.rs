//! The 8-bit sample format of `dasp_sample`, as far as this crate uses it.
//! Nothing here is proved: each contract restates what the source of the
//! outside item shows.

use dasp_sample::Sample;
use vstd::prelude::*;

verus! {

/// The level of an 8-bit unsigned sample that stands for silence: the middle
/// of its range.
pub const SILENCE: u8 = 128;

/// `<u8 as Sample>::EQUILIBRIUM`, which the outside crate defines as 128.
#[verifier::external_body]
pub(crate) fn equilibrium() -> (level: u8)
    ensures
        level == SILENCE,
{
    <u8 as Sample>::EQUILIBRIUM
}

/// `Sample::to_sample` from `u8` to `u8`: the outside crate converts a
/// format to itself by handing the value back.
#[verifier::external_body]
pub(crate) fn u8_to_sample(value: &u8) -> (sample: u8)
    ensures
        sample == *value,
{
    value.to_sample::<u8>()
}

/// `Sample::from_sample` from `u8` to `u8`: the outside crate converts a
/// format to itself by handing the value back.
#[verifier::external_body]
pub(crate) fn u8_from_sample(sample: &u8) -> (value: u8)
    ensures
        value == *sample,
{
    <u8 as Sample>::from_sample::<u8>(*sample)
}

} // verus!
