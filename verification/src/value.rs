//! Typed storage cells of the host.

use crate::error::{derg_result, spec_derg_result, DergError, DergResult};
use crate::host::Host;
use crate::ref_id::RefId;
use core::marker::PhantomData;
use vstd::prelude::*;
use vstd::std_specs::convert::FromSpec;

verus! {

/// A non-owning reference to a storage cell of the host that holds a `T`.
#[derive(Debug)]
pub struct Value<T>(u64, PhantomData<T>);

impl<T> View for Value<T> {
    type V = u64;

    /// The integer of the handle that the wrapper was made from.
    closed spec fn view(&self) -> u64 {
        self.0
    }
}

impl<T> Clone for Value<T> {
    fn clone(&self) -> (r: Self)
        ensures
            r == *self,
    {
        *self
    }
}

impl<T> Copy for Value<T> {

}

impl<T> From<RefId<Value<T>>> for Value<T> {
    fn from(value: RefId<Value<T>>) -> (r: Self) {
        Value::of(value)
    }
}

impl<T> vstd::std_specs::convert::FromSpecImpl<RefId<Value<T>>> for Value<T> {
    open spec fn obeys_from_spec() -> bool {
        true
    }

    open spec fn from_spec(value: RefId<Value<T>>) -> Self {
        Value::spec_of(value)
    }
}

impl<T> Value<T> {
    /// The wrapper of a handle.
    pub closed spec fn spec_of(handle: RefId<Value<T>>) -> Self {
        Value(handle@, PhantomData)
    }

    /// The wrapper of a handle. `From` does the same.
    #[verifier::when_used_as_spec(spec_of)]
    pub fn of(handle: RefId<Value<T>>) -> (r: Self)
        ensures
            r == Self::spec_of(handle),
            r@ == handle@,
    {
        Value(handle.raw(), PhantomData)
    }

    /// The wrapper of a handle has the integer of that handle, and its handle
    /// is that handle again.
    pub proof fn lemma_of_keeps_handle(h: RefId<Value<T>>)
        ensures
            Self::spec_of(h)@ == h@,
            Self::spec_of(h).spec_id() == h,
    {
        RefId::<Value<T>>::lemma_from_raw(h@);
        RefId::<Value<T>>::lemma_view_injective(Self::spec_of(h).spec_id(), h);
    }

    /// The handle of the wrapper.
    pub open spec fn spec_id(&self) -> RefId<Value<T>> {
        RefId::spec_from_raw(self@)
    }

    /// The handle of the wrapper.
    #[verifier::when_used_as_spec(spec_id)]
    pub fn id(&self) -> (r: RefId<Value<T>>)
        ensures
            r == self.spec_id(),
            r@ == self@,
    {
        RefId::from_raw(self.0)
    }

    /// Conversion keeps the handle: the wrapper made from `h` has the integer
    /// of `h`, and its handle is `h` again.
    pub proof fn lemma_from_keeps_handle(h: RefId<Value<T>>)
        ensures
            Value::<T>::from_spec(h)@ == h@,
            Value::<T>::from_spec(h).spec_id() == h,
    {
        Self::lemma_of_keeps_handle(h);
    }

    /// Filtering the zero handle gives nothing; filtering any other handle
    /// gives a wrapper of that very handle.
    pub proof fn lemma_filter_invalid(h: RefId<Value<T>>)
        ensures
            h@ == 0 ==> h.spec_filter_invalid() is None,
            h@ != 0 ==> h.spec_filter_invalid() is Some,
            h@ != 0 ==> h.spec_filter_invalid().unwrap()@ == h@,
            h@ != 0 ==> h.spec_filter_invalid().unwrap().spec_id() == h,
    {
        Value::<T>::lemma_from_keeps_handle(h);
    }
}

impl Value<i32> {
    /// What a read returns for the host's status and value: the value where
    /// the status is `0`, else the status's error.
    pub open spec fn spec_read_reply(reply: (i32, i32)) -> Result<i32, DergError> {
        match spec_derg_result(reply.0) {
            Ok(_) => Ok(reply.1),
            Err(e) => Err(e),
        }
    }

    /// Interprets the host's answer to a read.
    pub fn read_reply(reply: (i32, i32)) -> (r: DergResult<i32>)
        ensures
            r == Self::spec_read_reply(reply),
    {
        match derg_result(reply.0) {
            Ok(_) => Ok(reply.1),
            Err(e) => Err(e),
        }
    }

    /// Reads the cell: one call to the host, whose status decides between
    /// the value and an error.
    pub fn get<H: Host>(&self, host: &H) -> (r: DergResult<i32>)
        ensures
            exists|reply: (i32, i32)|
                #![trigger call_ensures(H::value_get_int, (host, self.spec_id()), reply)]
                call_ensures(H::value_get_int, (host, self.spec_id()), reply)
                    && r == Self::spec_read_reply(reply),
    {
        let reply = host.value_get_int(self.id());
        Self::read_reply(reply)
    }

    /// Writes the cell: one call to the host, whose status is the result.
    /// The wrapper itself does not change.
    pub fn set<H: Host>(&mut self, host: &H, val: i32) -> (r: DergResult)
        ensures
            *final(self) == *old(self),
            exists|status: i32|
                #![trigger call_ensures(H::value_set_int, (host, old(self).spec_id(), val), status)]
                call_ensures(H::value_set_int, (host, old(self).spec_id(), val), status)
                    && r == spec_derg_result(status),
    {
        let status: i32 = host.value_set_int(self.id(), val);
        derg_result(status)
    }
}

} // verus!
