//! The contract between a stuffed value and the strategy that packs it, and
//! the strategy that packs nothing but addresses.

use crate::backend::Backend;
use crate::unstuffed::Unstuffed;
use vstd::prelude::*;

verus! {

/// How addresses and one other kind of value are packed into a backend `B`.
///
/// A strategy is stateless: it is usually a marker type without fields. Its
/// four ghost functions are the model of what it does, its three executable
/// functions compute exactly that model, and its two lemmas say how far
/// unpacking undoes stuffing.
pub trait StuffingStrategy<B> {
    /// The other kind of value that can take an address's place. It is handed
    /// around by value, so every function that touches it asks for `Copy`.
    type Other;

    /// The backend value that stands for `inner`.
    spec fn stuffed_other(inner: Self::Other) -> B;

    /// Whether the backend can represent `addr`.
    spec fn ptr_fits(addr: usize) -> bool;

    /// The backend value that stands for the address `addr`.
    spec fn stuffed_ptr(addr: usize) -> B;

    /// What the backend value `data` unpacks to.
    spec fn unstuffed(data: B) -> Unstuffed<usize, Self::Other>;

    /// Packs `inner` into the backend. Never fails.
    fn stuff_other(inner: Self::Other) -> (data: B) where Self::Other: Copy
        ensures
            data == Self::stuffed_other(inner),
    ;

    /// Unpacks `data` into the address or the other value it stands for.
    ///
    /// `data` must have been made by this strategy's own
    /// [`StuffingStrategy::stuff_other`], or by its
    /// [`StuffingStrategy::stuff_ptr`] from an address that fits: see
    /// [`is_stuffed`], which is this precondition by name.
    fn extract(data: B) -> (out: Unstuffed<usize, Self::Other>) where Self::Other: Copy
        requires
            (exists|inner: Self::Other| data == #[trigger] Self::stuffed_other(inner))
                || (exists|addr: usize|
                #![trigger Self::stuffed_ptr(addr)]
                #![trigger Self::ptr_fits(addr)]
                Self::ptr_fits(addr) && data == Self::stuffed_ptr(addr)),
        ensures
            out == Self::unstuffed(data),
    ;

    /// Packs the address `addr` into the backend. The address must be one the
    /// backend can represent.
    fn stuff_ptr(addr: usize) -> (data: B) where Self::Other: Copy
        requires
            Self::ptr_fits(addr),
        ensures
            data == Self::stuffed_ptr(addr),
    ;

    /// Stuffing an address that fits and unpacking the result gives the
    /// address back, unless some payload is stuffed to the same backend value.
    proof fn lemma_ptr_round_trip(addr: usize)
        requires
            Self::ptr_fits(addr),
        ensures
            Self::unstuffed(Self::stuffed_ptr(addr))
                == Unstuffed::<usize, Self::Other>::Ptr(addr) || (exists|inner: Self::Other|
                #[trigger] Self::stuffed_other(inner) == Self::stuffed_ptr(addr)),
    ;

    /// Stuffing a payload and unpacking the result gives the payload back,
    /// unless some address that fits is stuffed to the same backend value.
    proof fn lemma_other_round_trip(inner: Self::Other)
        ensures
            Self::unstuffed(Self::stuffed_other(inner))
                == Unstuffed::<usize, Self::Other>::Other(inner) || (exists|addr: usize|
                Self::ptr_fits(addr)
                    && #[trigger] Self::stuffed_ptr(addr) == Self::stuffed_other(inner)),
    ;
}

/// `data` is what strategy `S` makes of some payload, or of some address that
/// fits: the values that [`StuffingStrategy::extract`] accepts.
pub open spec fn is_stuffed<S: StuffingStrategy<B> + ?Sized, B>(data: B) -> bool {
    (exists|inner: S::Other| data == #[trigger] S::stuffed_other(inner))
        || (exists|addr: usize|
        #![trigger S::stuffed_ptr(addr)]
        #![trigger S::ptr_fits(addr)]
        S::ptr_fits(addr) && data == S::stuffed_ptr(addr))
}

/// The strategy that tags nothing: every backend value is an address.
///
/// Its payload is the unit value, which carries no information. Stuffing it
/// gives the backend's zero, which unpacks to the address zero like any other
/// zero.
impl<B: Backend> StuffingStrategy<B> for () {
    type Other = ();

    open spec fn stuffed_other(inner: ()) -> B {
        B::with_value(0)
    }

    open spec fn ptr_fits(addr: usize) -> bool {
        addr <= B::max_value()
    }

    open spec fn stuffed_ptr(addr: usize) -> B {
        B::with_value(addr as nat)
    }

    open spec fn unstuffed(data: B) -> Unstuffed<usize, ()> {
        Unstuffed::Ptr(data.value() as usize)
    }

    /// The backend's zero, whatever `_inner` is.
    fn stuff_other(_inner: ()) -> (data: B)
        ensures
            B::value(data) == 0,
    {
        proof {
            B::lemma_with_value_holds(0);
        }
        B::zero()
    }

    /// Always an address: the number that `data` holds, which is no larger
    /// than an address can be.
    fn extract(data: B) -> (out: Unstuffed<usize, ()>)
        ensures
            data.value() <= usize::MAX,
            out == Unstuffed::<usize, ()>::Ptr(data.value() as usize),
    {
        proof {
            B::lemma_with_value_holds(0);
            if data != B::with_value(0) {
                let addr = choose|addr: usize|
                    addr <= B::max_value() && data == B::with_value(addr as nat);
                B::lemma_with_value_holds(addr as nat);
            }
        }
        match data.to_addr() {
            Some(addr) => Unstuffed::Ptr(addr),
            None => vstd::pervasive::unreached(),
        }
    }

    /// The backend value that holds the same number as `addr`.
    fn stuff_ptr(addr: usize) -> (data: B)
        ensures
            B::value(data) == addr,
    {
        proof {
            B::lemma_with_value_holds(addr as nat);
        }
        match B::from_addr(addr) {
            Some(data) => data,
            None => vstd::pervasive::unreached(),
        }
    }

    /// Every address that fits comes back, the address zero too.
    proof fn lemma_ptr_round_trip(addr: usize) {
        B::lemma_with_value_holds(addr as nat);
    }

    /// The unit payload does not come back: it is stuffed to zero, as the
    /// address zero is, and zero unpacks to that address.
    proof fn lemma_other_round_trip(inner: ()) {
        assert(<() as StuffingStrategy<B>>::ptr_fits(0usize) && <() as StuffingStrategy<
            B,
        >>::stuffed_ptr(0usize) == <() as StuffingStrategy<B>>::stuffed_other(inner));
    }
}

/// Without tagging, every address the backend can represent comes back
/// unchanged from stuffing and unpacking.
pub proof fn lemma_identity_round_trip<B: Backend>(addr: usize)
    requires
        <() as StuffingStrategy<B>>::ptr_fits(addr),
    ensures
        <() as StuffingStrategy<B>>::unstuffed(<() as StuffingStrategy<B>>::stuffed_ptr(addr))
            == Unstuffed::<usize, ()>::Ptr(addr),
{
    B::lemma_with_value_holds(addr as nat);
}

/// Without tagging, the backend values that can be unpacked are exactly those
/// that hold a number no larger than an address can be.
pub proof fn lemma_identity_is_stuffed<B: Backend>(data: B)
    ensures
        is_stuffed::<(), B>(data) <==> data.value() <= usize::MAX,
{
    B::lemma_with_value_holds(0);
    if is_stuffed::<(), B>(data) {
        if data != B::with_value(0) {
            let addr = choose|addr: usize|
                <() as StuffingStrategy<B>>::ptr_fits(addr) && data == <() as StuffingStrategy<
                    B,
                >>::stuffed_ptr(addr);
            B::lemma_with_value_holds(addr as nat);
        }
    }
    if data.value() <= usize::MAX {
        let addr = data.value() as usize;
        data.lemma_value_bounded();
        data.lemma_value_unique();
        assert(<() as StuffingStrategy<B>>::ptr_fits(addr) && data == <() as StuffingStrategy<
            B,
        >>::stuffed_ptr(addr));
    }
}

} // verus!
