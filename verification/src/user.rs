//! A user present in the host's session.

use crate::ref_id::RefId;
use vstd::prelude::*;
use vstd::std_specs::convert::FromSpec;

verus! {

/// A non-owning reference to a user.
///
/// It does not own the object: the host may destroy it at any time, and then
/// answers every call on the wrapper with an absence or an error.
#[derive(Debug)]
pub struct User(u64);

impl View for User {
    type V = u64;

    /// The integer of the handle that the wrapper was made from.
    closed spec fn view(&self) -> u64 {
        self.0
    }
}

impl Clone for User {
    fn clone(&self) -> (r: Self)
        ensures
            r == *self,
    {
        User(self.0)
    }
}

impl From<RefId<User>> for User {
    fn from(value: RefId<User>) -> (r: Self) {
        User(value.raw())
    }
}

impl vstd::std_specs::convert::FromSpecImpl<RefId<User>> for User {
    open spec fn obeys_from_spec() -> bool {
        true
    }

    closed spec fn from_spec(value: RefId<User>) -> Self {
        User(value@)
    }
}

impl User {
    /// The handle of the wrapper.
    pub open spec fn spec_id(&self) -> RefId<User> {
        RefId::spec_from_raw(self@)
    }

    /// The handle of the wrapper.
    #[verifier::when_used_as_spec(spec_id)]
    pub fn id(&self) -> (r: RefId<User>)
        ensures
            r == self.spec_id(),
            r@ == self@,
    {
        RefId::from_raw(self.0)
    }

    /// Conversion keeps the handle: the wrapper made from `h` has the integer
    /// of `h`, and its handle is `h` again.
    pub proof fn lemma_from_keeps_handle(h: RefId<User>)
        ensures
            User::from_spec(h)@ == h@,
            User::from_spec(h).spec_id() == h,
    {
        RefId::<User>::lemma_from_raw(h@);
        RefId::<User>::lemma_view_injective(User::from_spec(h).spec_id(), h);
    }

    /// Filtering the zero handle gives nothing; filtering any other handle
    /// gives a wrapper of that very handle.
    pub proof fn lemma_filter_invalid(h: RefId<User>)
        ensures
            h@ == 0 ==> h.spec_filter_invalid() is None,
            h@ != 0 ==> h.spec_filter_invalid() is Some,
            h@ != 0 ==> h.spec_filter_invalid().unwrap()@ == h@,
            h@ != 0 ==> h.spec_filter_invalid().unwrap().spec_id() == h,
    {
        User::lemma_from_keeps_handle(h);
    }
}

} // verus!
