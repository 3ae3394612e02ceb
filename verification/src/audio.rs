//! What the two hardware callbacks do with a block of samples. The capture
//! side converts a fresh block to 8-bit samples and pushes it into its ring.
//! The playback side clears the block it is asked to fill to silence and then
//! takes from its ring what is there, so that an underrun is heard as
//! silence. Neither waits for samples, and a lock that cannot be had costs
//! one block.
//!
//! Each callback comes in two steps. The first asks for the lock of the
//! shared ring; whether it gets it depends on the other threads, and so does
//! what the ring then holds. The second takes what the first got, the ring or
//! nothing, and does the rest: its contract says exactly what.
//!
//! The hardware format is a type parameter, and its conversion to and from
//! 8-bit samples is handed in; for hardware that speaks 8-bit unsigned
//! itself, the `_u8` functions bring the conversion along.

use crate::model::{converted_sample, converts, drain_len, newest};
use crate::sample::{equilibrium, u8_from_sample, u8_to_sample, SILENCE};
use crate::sample_ring_buffer::{ring_if_held, Buffer, BufferHandle};
use crate::util::{silent, write_silence};
use vstd::prelude::*;

verus! {

/// How one callback ended.
#[derive(Clone, Copy, Debug, PartialEq, Eq)]
pub enum Handoff {
    /// The hardware handed over a block without samples; the ring was not
    /// touched.
    EmptyBlock,
    /// The lock of the ring could not be had; the block is lost.
    LockFailed,
    /// The ring took or gave this many samples.
    Moved(usize),
}

/// The capture callback: converts each sample of `data` with `to_canonical`
/// and pushes all of them into the shared ring with one
/// `push_all_with_transform`, for which alone it holds the lock. An empty
/// block is reported without taking the lock.
pub fn capture_block<S, F: Fn(&S) -> u8>(sink: &BufferHandle, data: &[S], to_canonical: F) -> (done:
    Handoff)
    requires
        forall|i: int|
            0 <= i < data@.len() ==> call_requires(to_canonical, (&#[trigger] data@[i],)),
    ensures
        data@.len() == 0 ==> done == Handoff::EmptyBlock,
        data@.len() > 0 ==> done == Handoff::LockFailed || (done matches Handoff::Moved(n) && n
            == data@.len()),
{
    if data.is_empty() {
        return Handoff::EmptyBlock;
    }
    let mut held = sink.lock();
    let ring = ring_if_held(&mut held);
    capture_into(ring, data, to_canonical)
}

/// The capture callback for hardware that delivers 8-bit unsigned samples.
pub fn capture_block_u8(sink: &BufferHandle, data: &[u8]) -> (done: Handoff)
    ensures
        data@.len() == 0 ==> done == Handoff::EmptyBlock,
        data@.len() > 0 ==> done == Handoff::LockFailed || (done matches Handoff::Moved(n) && n
            == data@.len()),
{
    let to_canonical = |value: &u8| -> (sample: u8)
        ensures
            sample == *value,
        { u8_to_sample(value) };
    capture_block(sink, data, to_canonical)
}

/// What the capture callback does with a block once it has asked for the
/// lock. With the ring in hand it pushes the converted block, all of it, and
/// reports its length; without, the block is lost and nothing else happens.
pub fn capture_into<S, F: Fn(&S) -> u8>(
    ring: Option<&mut Buffer>,
    data: &[S],
    to_canonical: F,
) -> (done: Handoff)
    requires
        forall|i: int|
            0 <= i < data@.len() ==> call_requires(to_canonical, (&#[trigger] data@[i],)),
    ensures
        ring is None ==> done == Handoff::LockFailed,
        ring matches Some(r) ==> done matches Handoff::Moved(n) && n == data@.len(),
        ring matches Some(r) ==> final(r).capacity() == r.capacity(),
        ring matches Some(r) ==> exists|pushed: Seq<u8>|
            converts(to_canonical, data@, pushed) && final(r)@ == newest(
                r@ + pushed,
                r.capacity(),
            ),
{
    match ring {
        Some(r) => {
            r.push_all_with_transform(data, to_canonical);
            Handoff::Moved(data.len())
        },
        None => Handoff::LockFailed,
    }
}

/// The playback callback: clears `data` to `silence`, then fills it from the
/// front out of the shared ring with one `pop_into_with_transform`, for
/// which alone it holds the lock. What the ring could not fill stays silent,
/// and so does the whole block where the lock cannot be had. An empty block
/// is reported without taking the lock.
pub fn playback_block<S: Copy, F: Fn(&u8) -> S>(
    source: &BufferHandle,
    data: &mut [S],
    silence: S,
    from_canonical: F,
) -> (done: Handoff)
    requires
        forall|sample: u8| call_requires(from_canonical, (&sample,)),
    ensures
        final(data)@.len() == old(data)@.len(),
        old(data)@.len() == 0 ==> done == Handoff::EmptyBlock,
        old(data)@.len() > 0 ==> done != Handoff::EmptyBlock,
        done == Handoff::LockFailed ==> final(data)@ == silent(old(data)@.len(), silence),
        done matches Handoff::Moved(filled) ==> filled <= old(data)@.len(),
        done matches Handoff::Moved(filled) ==> forall|i: int|
            0 <= i < filled ==> converted_sample(from_canonical, #[trigger] final(data)@[i]),
        done matches Handoff::Moved(filled) ==> final(data)@.skip(filled as int) == silent(
            (old(data)@.len() - filled) as nat,
            silence,
        ),
{
    if data.is_empty() {
        return Handoff::EmptyBlock;
    }
    write_silence(data, silence);
    let mut held = source.lock();
    let ring = ring_if_held(&mut held);
    playback_from(ring, data, from_canonical)
}

/// The playback callback for hardware that takes 8-bit unsigned samples.
pub fn playback_block_u8(source: &BufferHandle, data: &mut [u8]) -> (done: Handoff)
    ensures
        final(data)@.len() == old(data)@.len(),
        old(data)@.len() == 0 ==> done == Handoff::EmptyBlock,
        old(data)@.len() > 0 ==> done != Handoff::EmptyBlock,
        done == Handoff::LockFailed ==> final(data)@ == silent(old(data)@.len(), SILENCE),
        done matches Handoff::Moved(filled) ==> filled <= old(data)@.len() && final(data)@.skip(
            filled as int,
        ) == silent((old(data)@.len() - filled) as nat, SILENCE),
{
    let from_canonical = |sample: &u8| -> (value: u8)
        ensures
            value == *sample,
        { u8_from_sample(sample) };
    playback_block(source, data, equilibrium(), from_canonical)
}

/// What the playback callback does with a block, already cleared, once it
/// has asked for the lock. With the ring in hand it fills the block from the
/// front with the oldest samples of the ring, each converted with
/// `from_canonical`, as far as they go, and reports how many those were;
/// the rest of the block stays as it was. Without the ring the whole block
/// stays as it was.
pub fn playback_from<S, F: Fn(&u8) -> S>(
    ring: Option<&mut Buffer>,
    data: &mut [S],
    from_canonical: F,
) -> (done: Handoff)
    requires
        ring matches Some(r) ==> forall|i: int|
            0 <= i < drain_len(r@.len(), old(data)@.len()) ==> call_requires(
                from_canonical,
                (&#[trigger] r@[i],),
            ),
    ensures
        final(data)@.len() == old(data)@.len(),
        ring is None ==> done == Handoff::LockFailed && final(data)@ == old(data)@,
        ring matches Some(r) ==> done matches Handoff::Moved(n) && n == drain_len(
            r@.len(),
            old(data)@.len(),
        ),
        ring matches Some(r) ==> final(r).capacity() == r.capacity(),
        ring matches Some(r) ==> final(r)@ == r@.skip(
            drain_len(r@.len(), old(data)@.len()) as int,
        ),
        ring matches Some(r) ==> forall|i: int|
            0 <= i < drain_len(r@.len(), old(data)@.len()) ==> call_ensures(
                from_canonical,
                (&r@[i],),
                #[trigger] final(data)@[i],
            ),
        ring matches Some(r) ==> forall|i: int|
            drain_len(r@.len(), old(data)@.len()) <= i < old(data)@.len()
                ==> #[trigger] final(data)@[i] == old(data)@[i],
{
    match ring {
        Some(r) => Handoff::Moved(r.pop_into_with_transform(data, from_canonical)),
        None => Handoff::LockFailed,
    }
}

} // verus!
