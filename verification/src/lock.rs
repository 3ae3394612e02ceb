//! The lock of a shared ring: `std::sync::Mutex`, as far as this crate uses
//! it. Nothing here is proved. A new lock is named by what it was made
//! around; nothing is claimed of what a lock guards after that: another
//! thread may have changed it since it was last held.

use crate::sample_ring_buffer::Buffer;
use std::sync::{LockResult, Mutex, MutexGuard, PoisonError};
use vstd::prelude::*;

verus! {

/// `std::sync::Mutex`, opaque to the verifier.
#[verifier::external_type_specification]
#[verifier::external_body]
#[verifier::reject_recursive_types(T)]
pub struct ExMutex<T: ?Sized>(Mutex<T>);

/// `std::sync::MutexGuard`, opaque to the verifier: a lock while it is held.
#[verifier::external_type_specification]
#[verifier::external_body]
#[verifier::reject_recursive_types(T)]
pub struct ExMutexGuard<'a, T: ?Sized + 'a>(MutexGuard<'a, T>);

/// `std::sync::PoisonError`, opaque to the verifier: what `Mutex::lock`
/// returns in place of the lock after a holder panicked.
#[verifier::external_type_specification]
#[verifier::external_body]
#[verifier::reject_recursive_types(T)]
pub struct ExPoisonError<T>(PoisonError<T>);

/// The lock that `Mutex::new` makes around a ring that holds `items` and can
/// hold `bound` samples: free, and never yet held. The name stands for the
/// lock as it is made. What it guards later is for whoever holds it to find,
/// and no contract speaks of that.
pub uninterp spec fn lock_around(items: Seq<u8>, bound: nat) -> Mutex<Buffer>;

/// `Mutex::new`, which makes a lock around the value that it is given and
/// does nothing else: what it returns is settled by that value.
#[verifier::external_body]
pub(crate) fn new_lock(ring: Buffer) -> (mutex: Mutex<Buffer>)
    ensures
        mutex == lock_around(ring@, ring.capacity()),
{
    Mutex::new(ring)
}

/// `Mutex::lock`: waits for the lock and returns it held, or returns an
/// error where a holder panicked before. Nothing is claimed of which: it
/// depends on the other threads. A thread that asks for a lock that it
/// holds itself may wait for ever or panic; the functions of this crate
/// hold no lock when they ask for one.
pub assume_specification<'a, T: ?Sized>[ Mutex::<T>::lock ](mutex: &'a Mutex<T>) -> (held:
    LockResult<MutexGuard<'a, T>>);

/// `DerefMut::deref_mut` of a held lock: the ring behind it, for as long as
/// the lock is held. Nothing is claimed of what the ring holds.
#[verifier::external_body]
pub(crate) fn held_ring<'a, 'b>(held: &'a mut MutexGuard<'b, Buffer>) -> (ring: &'a mut Buffer) {
    &mut **held
}

} // verus!
