//! The opaque wake capability consumed by the channel.
//!
//! The channel is a cooperative, poll-based component: instead of blocking,
//! an operation that cannot make progress parks the caller-supplied
//! `std::task::Waker` and a later complementary operation fires it to
//! request redispatch.  The handle is supplied per call by the surrounding
//! scheduler and is entirely opaque here.

use vstd::prelude::*;

verus! {

/// Declares `std::task::Waker`, the wake handle supplied by the surrounding
/// scheduler, so that the channel can store one per direction and fire it.
#[verifier::external_type_specification]
#[verifier::external_body]
pub struct ExWaker(std::task::Waker);

/// Relies on `std::task::Waker::wake`: requests that the task the handle
/// belongs to be polled again, consuming the handle.  It touches no value of
/// this library, so nothing is claimed of it.
#[verifier::external_body]
pub(crate) fn wake_now(waker: std::task::Waker) {
    waker.wake()
}

} // verus!
