//! Hand-off of 8-bit PCM samples between a hardware audio callback and a
//! datagram relay.
//!
//! The heart is [`sample_ring_buffer::Buffer`], a ring of fixed capacity
//! that never blocks and never fails: a push onto a full ring drives out the
//! oldest sample, a pop from an empty ring returns nothing. Two threads share
//! a ring behind a lock that each holds for one operation at a time. Around
//! it stand the two hardware callbacks ([`audio`]) and one pass of each of
//! the two network loops ([`relay`]).
//!
//! The contracts speak of a ring as a sequence of samples, oldest first, with
//! a bound ([`model`]); [`laws`] proves what follows from them. The ring
//! itself is the one of `dasp_ring_buffer`, the sample format that of
//! `dasp_sample`, and the lock that of the standard library: [`bounded`],
//! [`sample`] and [`lock`] state what this crate takes on trust from them.

pub mod audio;
pub mod bounded;
pub mod laws;
pub mod lock;
pub mod model;
pub mod relay;
pub mod sample;
pub mod sample_ring_buffer;
pub mod util;
