//! The bounded ring of `dasp_ring_buffer`, as far as this crate uses it.
//! Nothing here is proved: each contract restates what the source of the
//! outside function shows.

use crate::model::{after_pop, after_push, evicted_by_push, front_of};
use dasp_ring_buffer::Bounded;
use vstd::prelude::*;

verus! {

/// `dasp_ring_buffer::Bounded`, of which the verifier sees no more than the
/// two names below say.
#[verifier::external_type_specification]
#[verifier::external_body]
#[verifier::reject_recursive_types(S)]
pub struct ExBounded<S>(Bounded<S>);

/// The samples that a `Bounded` over byte storage holds, oldest first.
pub uninterp spec fn ring_items(ring: Bounded<Vec<u8>>) -> Seq<u8>;

/// The most samples that a `Bounded` over byte storage can hold, which is the
/// number of slots of the storage it was made from.
pub uninterp spec fn ring_bound(ring: Bounded<Vec<u8>>) -> nat;

/// `Bounded::from`: a ring over the given storage that holds nothing yet and
/// can hold one sample per slot of the storage. The outside function panics
/// on empty storage, which the precondition leaves out.
#[verifier::external_body]
pub(crate) fn ring_from(storage: Vec<u8>) -> (ring: Bounded<Vec<u8>>)
    requires
        storage@.len() > 0,
    ensures
        ring_items(ring) == Seq::<u8>::empty(),
        ring_bound(ring) == storage@.len(),
{
    Bounded::from(storage)
}

/// `Bounded::push`: on a ring that is not full the sample goes to the back
/// and nothing is returned; on a full ring the front sample is overwritten
/// and returned, and the new sample becomes the back one. The bound stays.
/// The outside function indexes its storage unchecked, modulo the bound, so
/// the precondition asks for a ring as `Bounded::from` makes them; on such a
/// ring it has no panicking path.
#[verifier::external_body]
pub(crate) fn ring_push(ring: &mut Bounded<Vec<u8>>, sample: u8) -> (evicted: Option<u8>)
    requires
        0 < ring_bound(*old(ring)),
        ring_items(*old(ring)).len() <= ring_bound(*old(ring)),
    ensures
        ring_bound(*final(ring)) == ring_bound(*old(ring)),
        ring_items(*final(ring)) == after_push(
            ring_items(*old(ring)),
            ring_bound(*old(ring)),
            sample,
        ),
        evicted == evicted_by_push(ring_items(*old(ring)), ring_bound(*old(ring))),
    no_unwind
{
    ring.push(sample)
}

/// `Bounded::pop`: an empty ring returns nothing and stays as it is; from any
/// other the front sample leaves and is returned. The bound stays. On a ring
/// as `Bounded::from` makes them the outside function has no panicking path.
#[verifier::external_body]
pub(crate) fn ring_pop(ring: &mut Bounded<Vec<u8>>) -> (front: Option<u8>)
    requires
        0 < ring_bound(*old(ring)),
        ring_items(*old(ring)).len() <= ring_bound(*old(ring)),
    ensures
        ring_bound(*final(ring)) == ring_bound(*old(ring)),
        ring_items(*final(ring)) == after_pop(ring_items(*old(ring))),
        front == front_of(ring_items(*old(ring))),
    no_unwind
{
    ring.pop()
}

} // verus!
