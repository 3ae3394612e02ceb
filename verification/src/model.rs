//! The ring as mathematics: a sequence of samples, oldest first, and a bound
//! on its length. The contracts of the executable ring are written over the
//! functions of this module.

use vstd::prelude::*;

verus! {

/// The newest `bound` samples of `s`, in order; all of `s` where it has no
/// more than that.
pub open spec fn newest(s: Seq<u8>, bound: nat) -> Seq<u8> {
    if s.len() <= bound {
        s
    } else {
        s.subrange(s.len() - bound, s.len() as int)
    }
}

/// What a ring holds after one push: the sample goes to the back, and where
/// the ring was full its front sample gives way.
pub open spec fn after_push(items: Seq<u8>, bound: nat, sample: u8) -> Seq<u8> {
    if items.len() < bound {
        items.push(sample)
    } else {
        items.drop_first().push(sample)
    }
}

/// The sample that one push drives out: the front one of a full ring, none
/// otherwise.
pub open spec fn evicted_by_push(items: Seq<u8>, bound: nat) -> Option<u8> {
    if items.len() < bound {
        None
    } else {
        Some(items[0])
    }
}

/// What one pop returns: the front sample, or nothing from an empty ring.
pub open spec fn front_of(items: Seq<u8>) -> Option<u8> {
    if items.len() == 0 {
        None
    } else {
        Some(items[0])
    }
}

/// What a ring holds after one pop: all but its front sample. An empty ring
/// stays empty.
pub open spec fn after_pop(items: Seq<u8>) -> Seq<u8> {
    if items.len() == 0 {
        items
    } else {
        items.drop_first()
    }
}

/// How many samples a drain into `slots` free places takes from a ring that
/// holds `held`: all of them, or as many as there are places.
pub open spec fn drain_len(held: nat, slots: nat) -> nat {
    if held <= slots {
        held
    } else {
        slots
    }
}

/// `out` is a possible image of `src` under `transform`, element by element.
pub open spec fn converts<S, T, F: Fn(&S) -> T>(transform: F, src: Seq<S>, out: Seq<T>) -> bool {
    &&& out.len() == src.len()
    &&& forall|i: int| 0 <= i < src.len() ==> call_ensures(transform, (&src[i],), #[trigger] out[i])
}

/// `value` is a possible image of some sample under `transform`.
pub open spec fn converted_sample<T, F: Fn(&u8) -> T>(transform: F, value: T) -> bool {
    exists|sample: u8| call_ensures(transform, (&sample,), value)
}

/// A push onto the newest `bound` samples of a history leaves the newest
/// `bound` samples of the history extended by that sample.
pub proof fn lemma_push_onto_newest(history: Seq<u8>, bound: nat, sample: u8)
    requires
        0 < bound,
    ensures
        after_push(newest(history, bound), bound, sample) == newest(history.push(sample), bound),
{
}

} // verus!
