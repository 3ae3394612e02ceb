//! Laws of the ring: how single pushes and pops relate to the block
//! operations, what an overrun leaves, and what any history of pushes and
//! pops can return. They are proved of the model that the contracts of the
//! executable ring are written over, so they hold of every run of it.

use crate::model::{
    after_pop, after_push, drain_len, front_of, lemma_push_onto_newest, newest,
};
use vstd::prelude::*;

verus! {

/// What a ring holds after the samples were pushed one by one, first to last.
pub open spec fn after_push_each(items: Seq<u8>, bound: nat, samples: Seq<u8>) -> Seq<u8>
    decreases samples.len(),
{
    if samples.len() == 0 {
        items
    } else {
        after_push(after_push_each(items, bound, samples.drop_last()), bound, samples.last())
    }
}

/// The samples that `count` pops in a row return, in the order in which they
/// come. Pops from the emptied ring add nothing.
pub open spec fn popped_by_each(items: Seq<u8>, count: nat) -> Seq<u8>
    decreases count,
{
    if count == 0 {
        Seq::empty()
    } else {
        match front_of(items) {
            Some(sample) => seq![sample] + popped_by_each(after_pop(items), (count - 1) as nat),
            None => popped_by_each(after_pop(items), (count - 1) as nat),
        }
    }
}

/// What a ring holds after `count` pops in a row.
pub open spec fn after_pop_each(items: Seq<u8>, count: nat) -> Seq<u8>
    decreases count,
{
    if count == 0 {
        items
    } else {
        after_pop_each(after_pop(items), (count - 1) as nat)
    }
}

/// Pushing samples one by one comes to the same as pushing them as a block:
/// the ring ends up with the newest samples, of those it held and those
/// pushed, that fit its bound.
pub proof fn push_each_keeps_newest(items: Seq<u8>, bound: nat, samples: Seq<u8>)
    requires
        0 < bound,
        items.len() <= bound,
    ensures
        after_push_each(items, bound, samples) == newest(items + samples, bound),
    decreases samples.len(),
{
    if samples.len() == 0 {
    } else {
        let earlier = samples.drop_last();
        push_each_keeps_newest(items, bound, earlier);
        lemma_push_onto_newest(items + earlier, bound, samples.last());
    }
}

/// Popping `count` times in a row returns the front samples in order, as
/// many as there are, and leaves the rest: the same as one drain into
/// `count` slots.
pub proof fn pop_each_is_a_drain(items: Seq<u8>, count: nat)
    ensures
        popped_by_each(items, count) == items.take(drain_len(items.len(), count) as int),
        after_pop_each(items, count) == items.skip(drain_len(items.len(), count) as int),
    decreases count,
{
    if count > 0 {
        pop_each_is_a_drain(after_pop(items), (count - 1) as nat);
    }
}

/// A pop from an empty ring returns nothing and leaves the ring empty,
/// however often it is repeated.
pub proof fn pop_from_empty_changes_nothing(count: nat)
    ensures
        front_of(Seq::<u8>::empty()) is None,
        after_pop(Seq::<u8>::empty()) == Seq::<u8>::empty(),
        popped_by_each(Seq::<u8>::empty(), count) == Seq::<u8>::empty(),
        after_pop_each(Seq::<u8>::empty(), count) == Seq::<u8>::empty(),
{
    pop_each_is_a_drain(Seq::<u8>::empty(), count);
}

/// After more samples were pushed than the ring can hold, it holds exactly
/// the last `bound` of them, in the order in which they were pushed, whatever
/// it held before; popping until it is empty returns them in that order.
pub proof fn overflow_leaves_the_last(items: Seq<u8>, bound: nat, samples: Seq<u8>, pops: nat)
    requires
        0 < bound,
        items.len() <= bound,
        samples.len() > bound,
        pops >= bound,
    ensures
        after_push_each(items, bound, samples) == samples.subrange(
            samples.len() - bound,
            samples.len() as int,
        ),
        newest(items + samples, bound) == samples.subrange(
            samples.len() - bound,
            samples.len() as int,
        ),
        popped_by_each(after_push_each(items, bound, samples), pops) == samples.subrange(
            samples.len() - bound,
            samples.len() as int,
        ),
        after_pop_each(after_push_each(items, bound, samples), pops) == Seq::<u8>::empty(),
{
    push_each_keeps_newest(items, bound, samples);
    let held = after_push_each(items, bound, samples);
    pop_each_is_a_drain(held, pops);
}

/// A block that fits into the free room of the ring comes out again as it
/// went in: after the push the ring holds what it held, then the block, and
/// a drain into enough slots returns all of that in order and leaves the
/// ring empty. From an empty ring the drain returns the block itself.
pub proof fn round_trip(items: Seq<u8>, bound: nat, samples: Seq<u8>, slots: nat)
    requires
        items.len() + samples.len() <= bound,
        slots >= items.len() + samples.len(),
    ensures
        newest(items + samples, bound) == items + samples,
        drain_len((items + samples).len(), slots) == items.len() + samples.len(),
        (items + samples).take(drain_len((items + samples).len(), slots) as int) == items
            + samples,
        (items + samples).skip(drain_len((items + samples).len(), slots) as int) == Seq::<
            u8,
        >::empty(),
        items.len() == 0 ==> items + samples == samples,
{
}

/// One operation on a ring, as a history of a shared ring records it: the
/// lock lets the operations of two threads through one at a time.
pub enum Op {
    /// A push of this sample.
    Push(u8),
    /// A pop.
    Pop,
}

/// The samples that the pushes of a history brought, in order.
pub open spec fn pushed_in(history: Seq<Op>) -> Seq<u8>
    decreases history.len(),
{
    if history.len() == 0 {
        Seq::empty()
    } else {
        match history.last() {
            Op::Push(sample) => pushed_in(history.drop_last()).push(sample),
            Op::Pop => pushed_in(history.drop_last()),
        }
    }
}

/// What a ring that started empty holds after a history.
pub open spec fn held_after(history: Seq<Op>, bound: nat) -> Seq<u8>
    decreases history.len(),
{
    if history.len() == 0 {
        Seq::empty()
    } else {
        match history.last() {
            Op::Push(sample) => after_push(held_after(history.drop_last(), bound), bound, sample),
            Op::Pop => after_pop(held_after(history.drop_last(), bound)),
        }
    }
}

/// The samples that the pops of a history returned from a ring that started
/// empty, in order.
pub open spec fn popped_in(history: Seq<Op>, bound: nat) -> Seq<u8>
    decreases history.len(),
{
    if history.len() == 0 {
        Seq::empty()
    } else {
        match history.last() {
            Op::Push(_) => popped_in(history.drop_last(), bound),
            Op::Pop => match front_of(held_after(history.drop_last(), bound)) {
                Some(sample) => popped_in(history.drop_last(), bound).push(sample),
                None => popped_in(history.drop_last(), bound),
            },
        }
    }
}

/// `picked` was taken out of `from` at the places `at`, which go strictly
/// upwards: each of `picked` is an element of `from`, none is taken twice,
/// and their order is kept.
pub open spec fn picks(at: Seq<int>, from: Seq<u8>, picked: Seq<u8>) -> bool {
    &&& at.len() == picked.len()
    &&& forall|i: int|
        0 <= i < at.len() ==> 0 <= #[trigger] at[i] < from.len() && picked[i] == from[at[i]]
    &&& forall|i: int, j: int| 0 <= i < j < at.len() ==> #[trigger] at[i] < #[trigger] at[j]
}

/// The places in `pushed_in(history)` from which the pops of the history
/// took their samples.
spec fn taken_at(history: Seq<Op>, bound: nat) -> Seq<int>
    decreases history.len(),
{
    if history.len() == 0 {
        Seq::empty()
    } else {
        let before = history.drop_last();
        match history.last() {
            Op::Push(_) => taken_at(before, bound),
            Op::Pop => if held_after(before, bound).len() == 0 {
                taken_at(before, bound)
            } else {
                taken_at(before, bound).push(
                    pushed_in(before).len() - held_after(before, bound).len(),
                )
            },
        }
    }
}

/// After any history a ring holds the unbroken tail of what was pushed that
/// was neither popped nor driven out, and every pop so far took its sample
/// from a place before that tail.
proof fn lemma_held_is_a_tail(history: Seq<Op>, bound: nat)
    requires
        0 < bound,
    ensures
        held_after(history, bound).len() <= bound,
        held_after(history, bound).len() <= pushed_in(history).len(),
        held_after(history, bound) == pushed_in(history).subrange(
            pushed_in(history).len() - held_after(history, bound).len(),
            pushed_in(history).len() as int,
        ),
        picks(taken_at(history, bound), pushed_in(history), popped_in(history, bound)),
        forall|i: int|
            0 <= i < taken_at(history, bound).len() ==> #[trigger] taken_at(history, bound)[i]
                < pushed_in(history).len() - held_after(history, bound).len(),
    decreases history.len(),
{
    if history.len() > 0 {
        let before = history.drop_last();
        lemma_held_is_a_tail(before, bound);
        let held = held_after(before, bound);
        let pushed = pushed_in(before);
        if let Op::Push(sample) = history.last() {
            if held.len() >= bound {
                // The full ring gives up its front sample: the tail starts one
                // place later and ends with the new sample.
                assert(held.drop_first().push(sample) == pushed.push(sample).subrange(
                    pushed.len() - held.len() + 1,
                    pushed.len() as int + 1,
                ));
            }
        }
    }
}

/// However pushes and pops follow one another on a ring that started empty,
/// every sample that a pop returns was pushed before, no pushed sample is
/// returned twice, and the samples are returned in the order in which they
/// were pushed.
pub proof fn pops_return_pushed_samples_once(history: Seq<Op>, bound: nat)
    requires
        0 < bound,
    ensures
        exists|at: Seq<int>| picks(at, pushed_in(history), popped_in(history, bound)),
{
    lemma_held_is_a_tail(history, bound);
}

/// However pushes and pops follow one another on a ring that started empty,
/// the ring holds no more than its bound, and what it holds is the newest
/// end of what was pushed, unbroken and in order: a sample leaves only at the
/// front, by a pop or by a push onto the full ring.
pub proof fn ring_holds_the_newest_end(history: Seq<Op>, bound: nat)
    requires
        0 < bound,
    ensures
        held_after(history, bound).len() <= bound,
        held_after(history, bound).len() <= pushed_in(history).len(),
        held_after(history, bound) == pushed_in(history).subrange(
            pushed_in(history).len() - held_after(history, bound).len(),
            pushed_in(history).len() as int,
        ),
{
    lemma_held_is_a_tail(history, bound);
}

} // verus!
