//! The waker under the poll-once executor that drives the vault.
//!
//! Every operation over an in-memory store is ready when it is first polled, so the
//! executor needs a waker only for form: one that does nothing.

use vstd::prelude::*;

verus! {

/// A waker of the standard library.
#[verifier::external_type_specification]
#[verifier::external_body]
pub struct ExWaker(std::task::Waker);

/// The parts that a waker is made from.
#[verifier::external_type_specification]
#[verifier::external_body]
pub struct ExRawWaker(std::task::RawWaker);

/// Whether a waker does nothing when it is used.
pub uninterp spec fn is_noop(waker: std::task::Waker) -> bool;

/// The parts that a waker was made from: its data pointer and its vtable.
pub uninterp spec fn parts_of(waker: std::task::Waker) -> std::task::RawWaker;

/// `Waker::noop`: a waker that does nothing when it is used.
pub assume_specification[ std::task::Waker::noop ]() -> (waker: &'static std::task::Waker)
    ensures
        is_noop(*waker),
;

/// `RawWaker::new` of what `Waker::data` and `Waker::vtable` hand out: the parts
/// that the waker was made from.
#[verifier::external_body]
fn raw_parts(waker: &std::task::Waker) -> (parts: std::task::RawWaker)
    ensures
        parts == parts_of(*waker),
{
    std::task::RawWaker::new(waker.data(), waker.vtable())
}

/// Whether a waker that does nothing is made from these parts.
pub open spec fn makes_noop(parts: std::task::RawWaker) -> bool {
    exists|waker: std::task::Waker| is_noop(waker) && parts == #[trigger] parts_of(waker)
}

/// The parts of a waker that does nothing.
pub fn noop_raw_waker() -> (parts: std::task::RawWaker)
    ensures
        makes_noop(parts),
{
    raw_parts(std::task::Waker::noop())
}

/// The parts that `noop_raw_waker` gives are those of a waker that does nothing.
pub proof fn the_waker_does_nothing(parts: std::task::RawWaker)
    requires
        call_ensures(noop_raw_waker, (), parts),
    ensures
        exists|waker: std::task::Waker| is_noop(waker) && #[trigger] parts_of(waker) == parts,
{
}

} // verus!
