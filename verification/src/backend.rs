//! The unsigned integers that a stuffed value can be stored in.

use vstd::prelude::*;

verus! {

/// An unsigned integer type that stuffed values are stored in.
///
/// A backend is described by the numbers it can hold: every value of the type
/// holds exactly one number between zero and [`Backend::max_value`], and every
/// number in that range is held by exactly one value.
pub trait Backend: Copy {
    /// The largest number the type can hold.
    spec fn max_value() -> nat;

    /// The number that `self` holds.
    spec fn value(self) -> nat;

    /// The value of the type that holds `n`. Only meaningful for `n` up to
    /// [`Backend::max_value`].
    spec fn with_value(n: nat) -> Self;

    /// No value holds more than the type's largest number.
    proof fn lemma_value_bounded(self)
        ensures
            self.value() <= Self::max_value(),
    ;

    /// Every number in range is held by the value made for it.
    proof fn lemma_with_value_holds(n: nat)
        requires
            n <= Self::max_value(),
        ensures
            Self::with_value(n).value() == n,
    ;

    /// A value is the one made for the number it holds, so two values that
    /// hold the same number are the same value.
    proof fn lemma_value_unique(self)
        ensures
            Self::with_value(self.value()) == self,
    ;

    /// The value that holds zero.
    fn zero() -> (z: Self)
        ensures
            z == Self::with_value(0),
    ;

    /// Widens or narrows an address into the backend. `None` exactly when the
    /// address is larger than the backend can hold.
    fn from_addr(addr: usize) -> (b: Option<Self>)
        ensures
            b == (if addr <= Self::max_value() {
                Some(Self::with_value(addr as nat))
            } else {
                None
            }),
    ;

    /// Narrows or widens a backend value into an address. `None` exactly when
    /// the number it holds is larger than any address.
    fn to_addr(self) -> (addr: Option<usize>)
        ensures
            addr == (if self.value() <= usize::MAX {
                Some(self.value() as usize)
            } else {
                None
            }),
    ;
}

/// The pointer-width backend: an address is stored as it is.
impl Backend for usize {
    open spec fn max_value() -> nat {
        usize::MAX as nat
    }

    open spec fn value(self) -> nat {
        self as nat
    }

    open spec fn with_value(n: nat) -> Self {
        n as usize
    }

    proof fn lemma_value_bounded(self) {
    }

    proof fn lemma_with_value_holds(n: nat) {
    }

    proof fn lemma_value_unique(self) {
    }

    fn zero() -> (z: Self)
        ensures
            z == 0,
    {
        0
    }

    /// Always `Some`: no address is too large for this backend.
    fn from_addr(addr: usize) -> (b: Option<Self>)
        ensures
            b == Some(addr),
    {
        Some(addr)
    }

    fn to_addr(self) -> (addr: Option<usize>)
        ensures
            addr == Some(self),
    {
        Some(self)
    }
}

/// The 64-bit backend: wide enough for every address.
impl Backend for u64 {
    open spec fn max_value() -> nat {
        u64::MAX as nat
    }

    open spec fn value(self) -> nat {
        self as nat
    }

    open spec fn with_value(n: nat) -> Self {
        n as u64
    }

    proof fn lemma_value_bounded(self) {
    }

    proof fn lemma_with_value_holds(n: nat) {
    }

    proof fn lemma_value_unique(self) {
    }

    fn zero() -> (z: Self)
        ensures
            z == 0,
    {
        0
    }

    /// Always `Some`: no address is too large for this backend.
    fn from_addr(addr: usize) -> (b: Option<Self>)
        ensures
            b == Some(addr as u64),
    {
        match u64::try_from(addr) {
            Ok(b) => Some(b),
            Err(_) => None,
        }
    }

    fn to_addr(self) -> (addr: Option<usize>)
        ensures
            self <= usize::MAX ==> addr == Some(self as usize),
            self > usize::MAX ==> addr.is_none(),
    {
        match usize::try_from(self) {
            Ok(addr) => Some(addr),
            Err(_) => None,
        }
    }
}

/// The 128-bit backend: wide enough for every address, and able to hold
/// numbers that no address can be.
impl Backend for u128 {
    open spec fn max_value() -> nat {
        u128::MAX as nat
    }

    open spec fn value(self) -> nat {
        self as nat
    }

    open spec fn with_value(n: nat) -> Self {
        n as u128
    }

    proof fn lemma_value_bounded(self) {
    }

    proof fn lemma_with_value_holds(n: nat) {
    }

    proof fn lemma_value_unique(self) {
    }

    fn zero() -> (z: Self)
        ensures
            z == 0,
    {
        0
    }

    /// Always `Some`: no address is too large for this backend.
    fn from_addr(addr: usize) -> (b: Option<Self>)
        ensures
            b == Some(addr as u128),
    {
        match u128::try_from(addr) {
            Ok(b) => Some(b),
            Err(_) => None,
        }
    }

    fn to_addr(self) -> (addr: Option<usize>)
        ensures
            self <= usize::MAX ==> addr == Some(self as usize),
            self > usize::MAX ==> addr.is_none(),
    {
        match usize::try_from(self) {
            Ok(addr) => Some(addr),
            Err(_) => None,
        }
    }
}

} // verus!
