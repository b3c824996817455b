//! Strategies that give up the backend's largest value as a tag.

use crate::strategy::{is_stuffed, StuffingStrategy};
use crate::unstuffed::Unstuffed;
use vstd::prelude::*;

verus! {

/// A payload without any state, kept in the backend's largest value.
///
/// Stuffing it yields the largest value of the backend, and that value alone
/// unpacks to it. Every other backend value is an address. An address that is
/// itself equal to the backend's largest value therefore reads back as the
/// payload: callers keep that one address out.
#[derive(Clone, Copy, PartialEq, Eq, Debug)]
pub struct EmptyInMax;

/// The sentinel strategy on a pointer-width backend: the tag is `usize::MAX`.
impl StuffingStrategy<usize> for EmptyInMax {
    type Other = EmptyInMax;

    open spec fn stuffed_other(inner: EmptyInMax) -> usize {
        usize::MAX
    }

    open spec fn ptr_fits(addr: usize) -> bool {
        true
    }

    open spec fn stuffed_ptr(addr: usize) -> usize {
        addr
    }

    open spec fn unstuffed(data: usize) -> Unstuffed<usize, EmptyInMax> {
        if data == usize::MAX {
            Unstuffed::Other(EmptyInMax)
        } else {
            Unstuffed::Ptr(data)
        }
    }

    /// The tag, whatever `_inner` is: the payload has no state to keep.
    fn stuff_other(_inner: EmptyInMax) -> (data: usize)
        returns
            usize::MAX,
    {
        usize::MAX
    }

    /// The payload for the tag, and for every other value the address it is.
    fn extract(data: usize) -> (out: Unstuffed<usize, EmptyInMax>)
        returns
            (if data == usize::MAX {
                Unstuffed::<usize, EmptyInMax>::Other(EmptyInMax)
            } else {
                Unstuffed::<usize, EmptyInMax>::Ptr(data)
            }),
    {
        if data == usize::MAX {
            Unstuffed::Other(EmptyInMax)
        } else {
            Unstuffed::Ptr(data)
        }
    }

    /// The address itself.
    fn stuff_ptr(addr: usize) -> (data: usize)
        returns
            addr,
    {
        addr
    }

    /// Every address comes back but the one that is stuffed to the tag.
    proof fn lemma_ptr_round_trip(addr: usize) {
        if addr == usize::MAX {
            assert(<EmptyInMax as StuffingStrategy<usize>>::stuffed_other(EmptyInMax)
                == <EmptyInMax as StuffingStrategy<usize>>::stuffed_ptr(addr));
        }
    }

    /// The payload always comes back.
    proof fn lemma_other_round_trip(inner: EmptyInMax) {
    }
}

/// The sentinel strategy on a 64-bit backend: the tag is `u64::MAX`.
impl StuffingStrategy<u64> for EmptyInMax {
    type Other = EmptyInMax;

    open spec fn stuffed_other(inner: EmptyInMax) -> u64 {
        u64::MAX
    }

    open spec fn ptr_fits(addr: usize) -> bool {
        true
    }

    open spec fn stuffed_ptr(addr: usize) -> u64 {
        addr as u64
    }

    open spec fn unstuffed(data: u64) -> Unstuffed<usize, EmptyInMax> {
        if data == u64::MAX {
            Unstuffed::Other(EmptyInMax)
        } else {
            Unstuffed::Ptr(data as usize)
        }
    }

    /// The tag, whatever `_inner` is: the payload has no state to keep.
    fn stuff_other(_inner: EmptyInMax) -> (data: u64)
        returns
            u64::MAX,
    {
        u64::MAX
    }

    /// The payload for the tag, and for every other value the address it
    /// holds, narrowed to pointer width. Narrowing loses nothing: a value
    /// that is not the tag holds an address's number.
    fn extract(data: u64) -> (out: Unstuffed<usize, EmptyInMax>)
        ensures
            data == u64::MAX || data <= usize::MAX,
        returns
            (if data == u64::MAX {
                Unstuffed::<usize, EmptyInMax>::Other(EmptyInMax)
            } else {
                Unstuffed::<usize, EmptyInMax>::Ptr(data as usize)
            }),
    {
        if data == u64::MAX {
            Unstuffed::Other(EmptyInMax)
        } else {
            Unstuffed::Ptr(data as usize)
        }
    }

    /// The address itself, widened to the backend.
    fn stuff_ptr(addr: usize) -> (data: u64)
        returns
            addr as u64,
    {
        addr as u64
    }

    /// Every address comes back but the one that is stuffed to the tag.
    proof fn lemma_ptr_round_trip(addr: usize) {
        if addr == u64::MAX {
            assert(<EmptyInMax as StuffingStrategy<u64>>::stuffed_other(EmptyInMax)
                == <EmptyInMax as StuffingStrategy<u64>>::stuffed_ptr(addr));
        }
    }

    /// The payload always comes back.
    proof fn lemma_other_round_trip(inner: EmptyInMax) {
    }
}

/// The sentinel strategy on a 128-bit backend: the tag is `u128::MAX`.
impl StuffingStrategy<u128> for EmptyInMax {
    type Other = EmptyInMax;

    open spec fn stuffed_other(inner: EmptyInMax) -> u128 {
        u128::MAX
    }

    open spec fn ptr_fits(addr: usize) -> bool {
        true
    }

    open spec fn stuffed_ptr(addr: usize) -> u128 {
        addr as u128
    }

    open spec fn unstuffed(data: u128) -> Unstuffed<usize, EmptyInMax> {
        if data == u128::MAX {
            Unstuffed::Other(EmptyInMax)
        } else {
            Unstuffed::Ptr(data as usize)
        }
    }

    /// The tag, whatever `_inner` is: the payload has no state to keep.
    fn stuff_other(_inner: EmptyInMax) -> (data: u128)
        returns
            u128::MAX,
    {
        u128::MAX
    }

    /// The payload for the tag, and for every other value the address it
    /// holds, narrowed to pointer width. Narrowing loses nothing: a value
    /// that is not the tag holds an address's number.
    fn extract(data: u128) -> (out: Unstuffed<usize, EmptyInMax>)
        ensures
            data == u128::MAX || data <= usize::MAX,
        returns
            (if data == u128::MAX {
                Unstuffed::<usize, EmptyInMax>::Other(EmptyInMax)
            } else {
                Unstuffed::<usize, EmptyInMax>::Ptr(data as usize)
            }),
    {
        if data == u128::MAX {
            Unstuffed::Other(EmptyInMax)
        } else {
            Unstuffed::Ptr(data as usize)
        }
    }

    /// The address itself, widened to the backend.
    fn stuff_ptr(addr: usize) -> (data: u128)
        returns
            addr as u128,
    {
        addr as u128
    }

    /// Every address comes back: none is as large as the tag.
    proof fn lemma_ptr_round_trip(addr: usize) {
    }

    /// The payload always comes back.
    proof fn lemma_other_round_trip(inner: EmptyInMax) {
    }
}

/// With a pointer-width backend, every address but the largest one comes back
/// unchanged from stuffing and unpacking.
pub proof fn lemma_ptr_round_trip_usize(addr: usize)
    requires
        addr != usize::MAX,
    ensures
        <EmptyInMax as StuffingStrategy<usize>>::unstuffed(
            <EmptyInMax as StuffingStrategy<usize>>::stuffed_ptr(addr),
        ) == Unstuffed::<usize, EmptyInMax>::Ptr(addr),
{
}

/// With a 64-bit backend, every address but the largest 64-bit number comes
/// back unchanged from stuffing and unpacking.
pub proof fn lemma_ptr_round_trip_u64(addr: usize)
    requires
        addr != u64::MAX,
    ensures
        <EmptyInMax as StuffingStrategy<u64>>::unstuffed(
            <EmptyInMax as StuffingStrategy<u64>>::stuffed_ptr(addr),
        ) == Unstuffed::<usize, EmptyInMax>::Ptr(addr),
{
}

/// With a 128-bit backend, every address comes back unchanged from stuffing
/// and unpacking: no address is as large as the largest 128-bit number.
pub proof fn lemma_ptr_round_trip_u128(addr: usize)
    ensures
        addr != u128::MAX,
        <EmptyInMax as StuffingStrategy<u128>>::unstuffed(
            <EmptyInMax as StuffingStrategy<u128>>::stuffed_ptr(addr),
        ) == Unstuffed::<usize, EmptyInMax>::Ptr(addr),
{
}

/// With a pointer-width backend, a stuffed payload unpacks to that payload.
pub proof fn lemma_other_round_trip_usize(inner: EmptyInMax)
    ensures
        <EmptyInMax as StuffingStrategy<usize>>::unstuffed(
            <EmptyInMax as StuffingStrategy<usize>>::stuffed_other(inner),
        ) == Unstuffed::<usize, EmptyInMax>::Other(inner),
{
}

/// With a 64-bit backend, a stuffed payload unpacks to that payload.
pub proof fn lemma_other_round_trip_u64(inner: EmptyInMax)
    ensures
        <EmptyInMax as StuffingStrategy<u64>>::unstuffed(
            <EmptyInMax as StuffingStrategy<u64>>::stuffed_other(inner),
        ) == Unstuffed::<usize, EmptyInMax>::Other(inner),
{
}

/// With a 128-bit backend, a stuffed payload unpacks to that payload.
pub proof fn lemma_other_round_trip_u128(inner: EmptyInMax)
    ensures
        <EmptyInMax as StuffingStrategy<u128>>::unstuffed(
            <EmptyInMax as StuffingStrategy<u128>>::stuffed_other(inner),
        ) == Unstuffed::<usize, EmptyInMax>::Other(inner),
{
}

/// With a pointer-width backend, the largest address is taken for the
/// payload: it stuffs to the tag and unpacks to the payload, not to itself.
pub proof fn lemma_max_ptr_is_tag_usize(addr: usize)
    requires
        addr == usize::MAX,
    ensures
        <EmptyInMax as StuffingStrategy<usize>>::stuffed_ptr(addr)
            == <EmptyInMax as StuffingStrategy<usize>>::stuffed_other(EmptyInMax),
        <EmptyInMax as StuffingStrategy<usize>>::unstuffed(
            <EmptyInMax as StuffingStrategy<usize>>::stuffed_ptr(addr),
        ) == Unstuffed::<usize, EmptyInMax>::Other(EmptyInMax),
{
}

/// With a 64-bit backend, an address equal to the largest 64-bit number is
/// taken for the payload: it stuffs to the tag and unpacks to the payload,
/// not to itself.
pub proof fn lemma_max_ptr_is_tag_u64(addr: usize)
    requires
        addr == u64::MAX,
    ensures
        <EmptyInMax as StuffingStrategy<u64>>::stuffed_ptr(addr)
            == <EmptyInMax as StuffingStrategy<u64>>::stuffed_other(EmptyInMax),
        <EmptyInMax as StuffingStrategy<u64>>::unstuffed(
            <EmptyInMax as StuffingStrategy<u64>>::stuffed_ptr(addr),
        ) == Unstuffed::<usize, EmptyInMax>::Other(EmptyInMax),
{
}

/// An address other than the largest one unpacks to the same address
/// whichever of the three backends it was stuffed into.
pub proof fn lemma_width_independent(addr: usize)
    requires
        addr != usize::MAX,
    ensures
        <EmptyInMax as StuffingStrategy<usize>>::unstuffed(
            <EmptyInMax as StuffingStrategy<usize>>::stuffed_ptr(addr),
        ) == Unstuffed::<usize, EmptyInMax>::Ptr(addr),
        <EmptyInMax as StuffingStrategy<u64>>::unstuffed(
            <EmptyInMax as StuffingStrategy<u64>>::stuffed_ptr(addr),
        ) == <EmptyInMax as StuffingStrategy<usize>>::unstuffed(
            <EmptyInMax as StuffingStrategy<usize>>::stuffed_ptr(addr),
        ),
        <EmptyInMax as StuffingStrategy<u128>>::unstuffed(
            <EmptyInMax as StuffingStrategy<u128>>::stuffed_ptr(addr),
        ) == <EmptyInMax as StuffingStrategy<usize>>::unstuffed(
            <EmptyInMax as StuffingStrategy<usize>>::stuffed_ptr(addr),
        ),
{
}

/// With a pointer-width backend, every backend value can be unpacked: each is
/// the tag or a stuffed address.
pub proof fn lemma_is_stuffed_usize(data: usize)
    ensures
        is_stuffed::<EmptyInMax, usize>(data),
{
    assert(data == <EmptyInMax as StuffingStrategy<usize>>::stuffed_ptr(data));
}

/// With a 64-bit backend, the backend values that can be unpacked are the tag
/// and those no larger than an address can be.
pub proof fn lemma_is_stuffed_u64(data: u64)
    ensures
        is_stuffed::<EmptyInMax, u64>(data) <==> data == u64::MAX || data <= usize::MAX,
{
    if data == u64::MAX {
        assert(data == <EmptyInMax as StuffingStrategy<u64>>::stuffed_other(EmptyInMax));
    } else if data <= usize::MAX {
        assert(data == <EmptyInMax as StuffingStrategy<u64>>::stuffed_ptr(data as usize));
    }
}

/// With a 128-bit backend, the backend values that can be unpacked are the
/// tag and those no larger than an address can be.
pub proof fn lemma_is_stuffed_u128(data: u128)
    ensures
        is_stuffed::<EmptyInMax, u128>(data) <==> data == u128::MAX || data <= usize::MAX,
{
    if data == u128::MAX {
        assert(data == <EmptyInMax as StuffingStrategy<u128>>::stuffed_other(EmptyInMax));
    } else if data <= usize::MAX {
        assert(data == <EmptyInMax as StuffingStrategy<u128>>::stuffed_ptr(data as usize));
    }
}

} // verus!
