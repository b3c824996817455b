//! What a stuffed value unpacks to.

use vstd::prelude::*;

verus! {

/// The two things a stuffed value can hold: a pointer's address, or the
/// strategy's own payload. Never both.
#[derive(PartialEq, Eq, Debug)]
pub enum Unstuffed<P, O> {
    /// The value holds an address.
    Ptr(P),
    /// The value holds the strategy's payload.
    Other(O),
}

impl<P: Copy, O: Copy> Clone for Unstuffed<P, O> {
    /// A copy of `self`: the same variant holding the same value.
    fn clone(&self) -> (copy: Self)
        ensures
            copy == *self,
    {
        *self
    }
}

impl<P: Copy, O: Copy> Copy for Unstuffed<P, O> {

}

} // verus!
