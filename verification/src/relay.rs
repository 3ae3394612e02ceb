//! One pass of each network loop, without the socket call. The sending loop
//! drains the capture ring into its scratch array, sends what was drained as
//! one datagram, and resets the used part of the array. The receiving loop
//! waits for a datagram in its scratch array, pushes the bytes that came
//! into the playback ring, and resets the used part of the array. A ring is
//! locked for one operation on it and never across a socket call.
//!
//! As with the callbacks, the step that asks for the lock is followed by one
//! that takes what was got, the ring or nothing, and whose contract says
//! exactly what it does with it.

use crate::model::{drain_len, newest};
use crate::sample::{equilibrium, SILENCE};
use crate::sample_ring_buffer::{ring_if_held, Buffer, BufferHandle};
use crate::util::{silent, write_silence};
use vstd::prelude::*;

verus! {

/// The sending loop before its socket call: takes the lock, drains the ring
/// into the front of `scratch` with one `pop_into`, and lets the lock go.
/// `Some(n)` says that the first `n` bytes of `scratch` are the datagram to
/// send now, also where `n` is 0: an empty ring gives an empty datagram.
/// `None` says that the lock could not be had; nothing was drained and
/// nothing is to be sent.
pub fn send_step(source: &BufferHandle, scratch: &mut [u8]) -> (datagram: Option<usize>)
    ensures
        final(scratch)@.len() == old(scratch)@.len(),
        datagram is None ==> final(scratch)@ == old(scratch)@,
        datagram matches Some(n) ==> n <= old(scratch)@.len() && final(scratch)@.skip(n as int)
            == old(scratch)@.skip(n as int),
{
    let mut held = source.lock();
    let ring = ring_if_held(&mut held);
    drain_from(ring, scratch)
}

/// What the sending loop does once it has asked for the lock. With the ring
/// in hand it moves the oldest samples of the ring to the front of
/// `scratch`, as many as there are and as fit, and says how many: they are
/// the datagram. Without the ring there is no datagram and `scratch` stays as
/// it was.
pub fn drain_from(ring: Option<&mut Buffer>, scratch: &mut [u8]) -> (datagram: Option<usize>)
    ensures
        ring is None ==> datagram is None && final(scratch)@ == old(scratch)@,
        ring matches Some(r) ==> datagram matches Some(n) && n == drain_len(
            r@.len(),
            old(scratch)@.len(),
        ),
        ring matches Some(r) ==> final(r).capacity() == r.capacity(),
        ring matches Some(r) ==> final(r)@ == r@.skip(
            drain_len(r@.len(), old(scratch)@.len()) as int,
        ),
        ring matches Some(r) ==> final(scratch)@ == r@.take(
            drain_len(r@.len(), old(scratch)@.len()) as int,
        ) + old(scratch)@.skip(drain_len(r@.len(), old(scratch)@.len()) as int),
{
    match ring {
        Some(r) => Some(r.pop_into(scratch)),
        None => None,
    }
}

/// The sending loop after its socket call: the `sent` bytes at the front of
/// `scratch` go back to silence, the rest stays.
pub fn send_done(scratch: &mut [u8], sent: usize)
    requires
        sent <= old(scratch)@.len(),
    ensures
        final(scratch)@ == silent(sent as nat, SILENCE) + old(scratch)@.skip(sent as int),
{
    let (used, _rest) = scratch.split_at_mut(sent);
    write_silence(used, equilibrium());
}

/// The receiving loop after its socket call put `received` bytes at the
/// front of `scratch`: takes the lock, pushes those bytes in order with one
/// `push_all`, lets the lock go, and resets them to silence. Returns whether
/// the lock could be had; if not, the datagram is dropped and `scratch` is
/// left as it was.
pub fn recv_step(sink: &BufferHandle, scratch: &mut [u8], received: usize) -> (applied: bool)
    requires
        received <= old(scratch)@.len(),
    ensures
        applied ==> final(scratch)@ == silent(received as nat, SILENCE) + old(scratch)@.skip(
            received as int,
        ),
        !applied ==> final(scratch)@ == old(scratch)@,
{
    let (used, _rest) = scratch.split_at_mut(received);
    let applied = {
        let mut held = sink.lock();
        let ring = ring_if_held(&mut held);
        deliver_into(ring, used)
    };
    if applied {
        write_silence(used, equilibrium());
    }
    applied
}

/// What the receiving loop does with a datagram once it has asked for the
/// lock. With the ring in hand it pushes the bytes of the datagram in order,
/// all of them, so that of a datagram larger than the ring the newest bytes
/// stay; without, the datagram is dropped.
pub fn deliver_into(ring: Option<&mut Buffer>, datagram: &[u8]) -> (applied: bool)
    ensures
        applied == (ring is Some),
        ring matches Some(r) ==> final(r).capacity() == r.capacity(),
        ring matches Some(r) ==> final(r)@ == newest(r@ + datagram@, r.capacity()),
{
    match ring {
        Some(r) => {
            r.push_all(datagram);
            true
        },
        None => false,
    }
}

} // verus!
