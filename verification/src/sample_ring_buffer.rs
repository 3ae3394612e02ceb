//! The sample ring, and the handle by which the audio side and the network
//! side share one.

use crate::bounded::{ring_bound, ring_from, ring_items, ring_pop, ring_push};
use crate::lock::{held_ring, lock_around, new_lock};
use crate::model::{
    after_pop, after_push, converts, drain_len, evicted_by_push, front_of, lemma_push_onto_newest,
    newest,
};
use crate::sample::equilibrium;
use dasp_ring_buffer::Bounded;
use std::sync::{Arc, LockResult, Mutex, MutexGuard};
use vstd::prelude::*;

verus! {

/// A ring of 8-bit samples with a fixed capacity. A push never fails: on a
/// full ring it drives out the oldest sample. A pop takes the oldest sample.
pub struct Buffer {
    buf: Bounded<Vec<u8>>,
}

impl View for Buffer {
    type V = Seq<u8>;

    /// The samples held, oldest first.
    closed spec fn view(&self) -> Seq<u8> {
        ring_items(self.buf)
    }
}

impl Buffer {
    /// The most samples the ring can hold, fixed when it was made.
    pub closed spec fn capacity(&self) -> nat {
        ring_bound(self.buf)
    }

    /// Every ring has room for at least one sample and never holds more
    /// than its capacity.
    #[verifier::type_invariant]
    pub open spec fn well_formed(&self) -> bool {
        0 < self.capacity() && self@.len() <= self.capacity()
    }

    /// An empty ring with room for `size_bound` samples. Its storage is
    /// allocated here, once, and starts out as silence. A ring without room
    /// cannot be made, nor one larger than an allocation can be.
    pub fn new(size_bound: usize) -> (buffer: Self)
        requires
            0 < size_bound <= isize::MAX,
        ensures
            buffer@ == Seq::<u8>::empty(),
            buffer.capacity() == size_bound,
    {
        Self { buf: ring_from(vec![equilibrium(); size_bound]) }
    }

    /// An empty ring with room for `size_bound` samples, behind a new lock
    /// and ready to be shared: the handle is the lock as it is made around
    /// such a ring. What a shared ring holds at a later moment is for the
    /// holder of its lock to know, so no contract speaks of it.
    pub fn new_handle(size_bound: usize) -> (handle: BufferHandle)
        requires
            0 < size_bound <= isize::MAX,
        ensures
            *handle == lock_around(Seq::<u8>::empty(), size_bound as nat),
    {
        Arc::new(new_lock(Self::new(size_bound)))
    }

    /// Puts `sample` at the back. A full ring gives up its oldest sample,
    /// which is returned.
    pub fn push(&mut self, sample: u8) -> (evicted: Option<u8>)
        ensures
            final(self).capacity() == old(self).capacity(),
            final(self)@ == after_push(old(self)@, old(self).capacity(), sample),
            evicted == evicted_by_push(old(self)@, old(self).capacity()),
    {
        proof {
            use_type_invariant(&*self);
        }
        ring_push(&mut self.buf, sample)
    }

    /// Takes the oldest sample, if there is one. An empty ring is left as it
    /// was.
    pub fn pop(&mut self) -> (front: Option<u8>)
        ensures
            final(self).capacity() == old(self).capacity(),
            front == front_of(old(self)@),
            final(self)@ == after_pop(old(self)@),
    {
        proof {
            use_type_invariant(&*self);
        }
        ring_pop(&mut self.buf)
    }

    /// Converts each of `samples` with `transform` and pushes the results in
    /// order. All of the input is taken, whatever that drives out of the
    /// ring: what stays are the newest samples that fit.
    pub fn push_all_with_transform<S, F: Fn(&S) -> u8>(&mut self, samples: &[S], transform: F)
        requires
            forall|i: int|
                0 <= i < samples@.len() ==> call_requires(transform, (&#[trigger] samples@[i],)),
        ensures
            final(self).capacity() == old(self).capacity(),
            exists|pushed: Seq<u8>|
                converts(transform, samples@, pushed) && final(self)@ == newest(
                    old(self)@ + pushed,
                    old(self).capacity(),
                ),
    {
        let ghost mut pushed: Seq<u8> = Seq::empty();
        let mut i: usize = 0;
        proof {
            use_type_invariant(&*self);
        }
        while i < samples.len()
            invariant
                i <= samples@.len(),
                0 < old(self).capacity(),
                forall|k: int|
                    0 <= k < samples@.len() ==> call_requires(
                        transform,
                        (&#[trigger] samples@[k],),
                    ),
                self.capacity() == old(self).capacity(),
                converts(transform, samples@.take(i as int), pushed),
                self@ == newest(old(self)@ + pushed, old(self).capacity()),
            decreases samples@.len() - i,
        {
            let sample = transform(&samples[i]);
            self.push(sample);
            proof {
                lemma_push_onto_newest(old(self)@ + pushed, old(self).capacity(), sample);
                pushed = pushed.push(sample);
            }
            i += 1;
        }
        proof {
            assert(samples@.take(i as int) == samples@);
        }
    }

    /// Pushes each of `samples` in order, unchanged.
    pub fn push_all(&mut self, samples: &[u8])
        ensures
            final(self).capacity() == old(self).capacity(),
            final(self)@ == newest(old(self)@ + samples@, old(self).capacity()),
    {
        let same = |sample: &u8| -> (out: u8)
            ensures
                out == *sample,
            { *sample };
        self.push_all_with_transform(samples, same);
    }

    /// Fills `slots` from the front, one popped and converted sample per
    /// slot, and stops when the ring is empty or the slots are used up.
    /// Returns how many slots were written; the others are left as they were.
    pub fn pop_into_with_transform<S, F: Fn(&u8) -> S>(
        &mut self,
        slots: &mut [S],
        transform: F,
    ) -> (num_written: usize)
        requires
            forall|i: int|
                0 <= i < drain_len(old(self)@.len(), old(slots)@.len()) ==> call_requires(
                    transform,
                    (&#[trigger] old(self)@[i],),
                ),
        ensures
            num_written == drain_len(old(self)@.len(), old(slots)@.len()),
            final(self).capacity() == old(self).capacity(),
            final(self)@ == old(self)@.skip(num_written as int),
            final(slots)@.len() == old(slots)@.len(),
            forall|i: int|
                0 <= i < num_written ==> call_ensures(
                    transform,
                    (&old(self)@[i],),
                    #[trigger] final(slots)@[i],
                ),
            forall|i: int|
                num_written <= i < old(slots)@.len()
                    ==> #[trigger] final(slots)@[i] == old(slots)@[i],
    {
        let mut num_written: usize = 0;
        while num_written < slots.len()
            invariant_except_break
                num_written <= slots@.len(),
            invariant
                slots@.len() == old(slots)@.len(),
                forall|i: int|
                    0 <= i < drain_len(old(self)@.len(), old(slots)@.len()) ==> call_requires(
                        transform,
                        (&#[trigger] old(self)@[i],),
                    ),
                self.capacity() == old(self).capacity(),
                num_written <= old(self)@.len(),
                self@ == old(self)@.skip(num_written as int),
                forall|k: int|
                    0 <= k < num_written ==> call_ensures(
                        transform,
                        (&old(self)@[k],),
                        #[trigger] slots@[k],
                    ),
                forall|k: int|
                    num_written <= k < slots@.len() ==> #[trigger] slots@[k] == old(slots)@[k],
            ensures
                num_written == drain_len(old(self)@.len(), old(slots)@.len()),
            decreases slots@.len() - num_written,
        {
            if let Some(sample) = self.pop() {
                let converted = transform(&sample);
                slots[num_written] = converted;
                num_written += 1;
            } else {
                break ;
            }
        }
        num_written
    }

    /// Fills `slots` from the front with popped samples, unchanged, and
    /// stops when the ring is empty or the slots are used up. Returns how
    /// many slots were written; the others are left as they were.
    pub fn pop_into(&mut self, slots: &mut [u8]) -> (num_written: usize)
        ensures
            num_written == drain_len(old(self)@.len(), old(slots)@.len()),
            final(self).capacity() == old(self).capacity(),
            final(self)@ == old(self)@.skip(num_written as int),
            final(slots)@ == old(self)@.take(num_written as int) + old(slots)@.skip(
                num_written as int,
            ),
    {
        let same = |sample: &u8| -> (out: u8)
            ensures
                out == *sample,
            { *sample };
        self.pop_into_with_transform(slots, same)
    }
}

/// A ring that two threads share: each takes the lock, does one operation
/// on the ring, and lets the lock go.
pub type BufferHandle = Arc<Mutex<Buffer>>;

/// The ring behind a lock that was asked for: there if the lock is held,
/// not there if it was refused.
pub(crate) fn ring_if_held<'a, 'b>(held: &'a mut LockResult<MutexGuard<'b, Buffer>>) -> (ring:
    Option<&'a mut Buffer>)
    ensures
        ring is Some <==> *old(held) is Ok,
{
    match held {
        Ok(guard) => Some(held_ring(guard)),
        Err(_) => None,
    }
}

} // verus!
