//! The opaque handle: a 64-bit integer with a type-level tag.

use core::marker::PhantomData;
use vstd::prelude::*;
use vstd::std_specs::convert::FromSpec;

verus! {

/// Tag of a handle whose kind is not known yet.
#[derive(Debug)]
pub struct Unknown;

/// A handle to an object of kind `T` inside the host.
///
/// Zero is reserved: it addresses no object and stands for "absent".
#[derive(Debug)]
pub struct RefId<T>(u64, PhantomData<T>);

impl<T> View for RefId<T> {
    type V = u64;

    /// The integer that the host knows the object by.
    closed spec fn view(&self) -> u64 {
        self.0
    }
}

impl<T> Clone for RefId<T> {
    fn clone(&self) -> (r: Self)
        ensures
            r == *self,
    {
        *self
    }
}

impl<T> Copy for RefId<T> {

}

impl<T> Default for RefId<T> {
    /// The zero handle.
    fn default() -> (r: Self)
        ensures
            r@ == 0,
    {
        RefId(0, PhantomData)
    }
}

impl<T> RefId<T> {
    /// Whether the handle addresses an object at all.
    pub open spec fn spec_valid(&self) -> bool {
        self@ != 0
    }

    /// The handle with the given integer.
    pub closed spec fn spec_from_raw(raw: u64) -> Self {
        RefId(raw, PhantomData)
    }

    /// The handle with the given integer.
    #[verifier::when_used_as_spec(spec_from_raw)]
    pub fn from_raw(raw: u64) -> (r: Self)
        ensures
            r == Self::spec_from_raw(raw),
            r@ == raw,
    {
        RefId(raw, PhantomData)
    }

    /// The integer behind the handle.
    pub fn raw(&self) -> (r: u64)
        ensures
            r == self@,
    {
        self.0
    }

    /// Whether the handle addresses an object at all: it does unless it is zero.
    #[verifier::when_used_as_spec(spec_valid)]
    pub fn valid(&self) -> (r: bool)
        ensures
            r == (self@ != 0),
    {
        self.0 != 0
    }

    /// The handle made from an integer has that integer.
    pub proof fn lemma_from_raw(raw: u64)
        ensures
            Self::spec_from_raw(raw)@ == raw,
    {
    }

    /// Two handles of one kind with the same integer are the same handle.
    pub proof fn lemma_view_injective(a: Self, b: Self)
        requires
            a@ == b@,
        ensures
            a == b,
    {
    }
}

impl<T> RefId<T> where T: From<RefId<T>> {
    /// What `filter_invalid` returns.
    pub open spec fn spec_filter_invalid(self) -> Option<T> {
        if self@ != 0 {
            Some(T::from_spec(self))
        } else {
            None
        }
    }

    /// The wrapper made from the handle, or `None` for the zero handle.
    pub fn filter_invalid(self) -> (r: Option<T>)
        ensures
            self@ == 0 ==> r is None,
            self@ != 0 ==> r is Some,
            T::obeys_from_spec() ==> r == self.spec_filter_invalid(),
    {
        if self.valid() {
            Some(T::from(self))
        } else {
            None
        }
    }
}

impl RefId<Unknown> {
    /// What `reinterpret` returns.
    pub closed spec fn spec_reinterpret<T>(self) -> RefId<T> {
        RefId::<T>(self.0, PhantomData)
    }

    /// The same integer under the tag `T`. Nothing is checked: the caller has
    /// learnt the object's kind from the host beforehand.
    pub fn reinterpret<T>(self) -> (r: RefId<T>)
        ensures
            r == self.spec_reinterpret::<T>(),
            r@ == self@,
    {
        RefId::<T>(self.0, PhantomData)
    }
}

/// Whether `r` is what filtering `h` gives: nothing for the zero handle, else
/// a wrapper with the integer of `h`.
pub open spec fn filters_to<T: View<V = u64>>(h: RefId<T>, r: Option<T>) -> bool {
    match r {
        None => h@ == 0,
        Some(w) => h@ != 0 && w@ == h@,
    }
}

/// Reinterpreting keeps the integer bit for bit: the raw value read back from
/// the typed handle is the raw value of the untyped one.
pub proof fn lemma_reinterpret_keeps_raw<T>(h: RefId<Unknown>)
    ensures
        h.spec_reinterpret::<T>()@ == h@,
        h.spec_reinterpret::<T>() == RefId::<T>::spec_from_raw(h@),
{
}

} // verus!
