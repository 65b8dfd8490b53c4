//! The executor's wake handle, carried through the library as an opaque value.

use std::task::Waker;
use vstd::prelude::*;

verus! {

/// `std::task::Waker`, of which the library sees nothing but that it is a
/// value.
#[verifier::external_type_specification]
#[verifier::external_body]
pub struct ExWaker(std::task::Waker);

/// Calls `Waker::wake`, which consumes the handle and asks the executor to
/// poll the task it belongs to. The contract claims nothing: the call returns
/// no value, and what the executor then does is outside this library.
#[verifier::external_body]
pub(crate) fn wake(waker: Waker) {
    waker.wake()
}

} // verus!
