//! Slots, the nodes of the host's scene graph, and their children.

use crate::external::Extern;
use crate::host::Host;
use crate::marshal::{
    c_compatible, count, flag, low_word, signed_flag, spec_count, spec_flag, spec_low_word,
    spec_signed_flag,
};
use crate::ref_id::{filters_to, RefId};
use crate::user::User;
use crate::user_root::UserRoot;
use vstd::prelude::*;
use vstd::std_specs::convert::FromSpec;

verus! {

/// A non-owning reference to a slot.
///
/// It does not own the object: the host may destroy it at any time, and then
/// answers every call on the wrapper with an absence or an error.
#[derive(Debug)]
pub struct Slot(u64);

impl View for Slot {
    type V = u64;

    /// The integer of the handle that the wrapper was made from.
    closed spec fn view(&self) -> u64 {
        self.0
    }
}

impl Clone for Slot {
    fn clone(&self) -> (r: Self)
        ensures
            r == *self,
    {
        Slot(self.0)
    }
}

impl From<RefId<Slot>> for Slot {
    fn from(value: RefId<Slot>) -> (r: Self) {
        Slot(value.raw())
    }
}

impl vstd::std_specs::convert::FromSpecImpl<RefId<Slot>> for Slot {
    open spec fn obeys_from_spec() -> bool {
        true
    }

    closed spec fn from_spec(value: RefId<Slot>) -> Self {
        Slot(value@)
    }
}

impl Slot {
    /// The handle of the wrapper.
    pub open spec fn spec_id(&self) -> RefId<Slot> {
        RefId::spec_from_raw(self@)
    }

    /// The handle of the wrapper.
    #[verifier::when_used_as_spec(spec_id)]
    pub fn id(&self) -> (r: RefId<Slot>)
        ensures
            r == self.spec_id(),
            r@ == self@,
    {
        RefId::from_raw(self.0)
    }

    /// Conversion keeps the handle: the wrapper made from `h` has the integer
    /// of `h`, and its handle is `h` again.
    pub proof fn lemma_from_keeps_handle(h: RefId<Slot>)
        ensures
            Slot::from_spec(h)@ == h@,
            Slot::from_spec(h).spec_id() == h,
    {
        RefId::<Slot>::lemma_from_raw(h@);
        RefId::<Slot>::lemma_view_injective(Slot::from_spec(h).spec_id(), h);
    }

    /// Filtering the zero handle gives nothing; filtering any other handle
    /// gives a wrapper of that very handle.
    pub proof fn lemma_filter_invalid(h: RefId<Slot>)
        ensures
            h@ == 0 ==> h.spec_filter_invalid() is None,
            h@ != 0 ==> h.spec_filter_invalid() is Some,
            h@ != 0 ==> h.spec_filter_invalid().unwrap()@ == h@,
            h@ != 0 ==> h.spec_filter_invalid().unwrap().spec_id() == h,
    {
        Slot::lemma_from_keeps_handle(h);
    }
}

impl Slot {
    /// The root of the scene graph, unless the host names none.
    pub fn root_slot<H: Host>(host: &H) -> (r: Option<Slot>)
        ensures
            exists|reply: RefId<Slot>|
                #![trigger call_ensures(H::slot_root_slot, (host,), reply)]
                call_ensures(H::slot_root_slot, (host,), reply)
                    && r == reply.spec_filter_invalid()
                    && filters_to(reply, r),
    {
        let reply = host.slot_root_slot();
        proof {
            Slot::lemma_filter_invalid(reply);
        }
        reply.filter_invalid()
    }

    /// The slot above this one, unless the host names none.
    pub fn parent<H: Host>(&self, host: &H) -> (r: Option<Slot>)
        ensures
            exists|reply: RefId<Slot>|
                #![trigger call_ensures(H::slot_get_parent, (host, self.spec_id()), reply)]
                call_ensures(H::slot_get_parent, (host, self.spec_id()), reply)
                    && r == reply.spec_filter_invalid()
                    && filters_to(reply, r),
    {
        let reply = host.slot_get_parent(self.id());
        proof {
            Slot::lemma_filter_invalid(reply);
        }
        reply.filter_invalid()
    }

    /// The user that this slot belongs to, unless the host names none.
    pub fn active_user<H: Host>(&self, host: &H) -> (r: Option<User>)
        ensures
            exists|reply: RefId<User>|
                #![trigger call_ensures(H::slot_get_active_user, (host, self.spec_id()), reply)]
                call_ensures(H::slot_get_active_user, (host, self.spec_id()), reply)
                    && r == reply.spec_filter_invalid()
                    && filters_to(reply, r),
    {
        let reply = host.slot_get_active_user(self.id());
        proof {
            User::lemma_filter_invalid(reply);
        }
        reply.filter_invalid()
    }

    /// The root of the user that this slot belongs to, unless the host names none.
    pub fn active_user_root<H: Host>(&self, host: &H) -> (r: Option<UserRoot>)
        ensures
            exists|reply: RefId<UserRoot>|
                #![trigger call_ensures(H::slot_get_active_user_root, (host, self.spec_id()), reply)]
                call_ensures(H::slot_get_active_user_root, (host, self.spec_id()), reply)
                    && r == reply.spec_filter_invalid()
                    && filters_to(reply, r),
    {
        let reply = host.slot_get_active_user_root(self.id());
        proof {
            UserRoot::lemma_filter_invalid(reply);
        }
        reply.filter_invalid()
    }

    /// The root of the object that this slot is part of, unless the host
    /// names none. The flag goes out as `1` or `0`.
    pub fn object_root<H: Host>(&self, host: &H, only_explicit: bool) -> (r: Option<Slot>)
        ensures
            exists|reply: RefId<Slot>|
                #![trigger call_ensures(H::slot_get_object_root, (host, self.spec_id(), spec_signed_flag(only_explicit)), reply)]
                call_ensures(
                    H::slot_get_object_root,
                    (host, self.spec_id(), spec_signed_flag(only_explicit)),
                    reply,
                )
                    && r == reply.spec_filter_invalid()
                    && filters_to(reply, r),
    {
        let reply = host.slot_get_object_root(self.id(), signed_flag(only_explicit));
        proof {
            Slot::lemma_filter_invalid(reply);
        }
        reply.filter_invalid()
    }

    /// Whether `r` is what `name` makes of the host's buffer: nothing of a
    /// null buffer, else a copy of the string in it.
    pub open spec fn name_of(buffer: Extern<String>, r: Option<String>) -> bool {
        match buffer@ {
            None => r is None,
            Some(text) => r is Some && r.unwrap()@ == text@,
        }
    }

    /// Reads a name out of the buffer that the host answered with.
    pub fn name_from(buffer: &Extern<String>) -> (r: Option<String>)
        ensures
            Self::name_of(*buffer, r),
    {
        match buffer.to_str() {
            Some(text) => Some(text.to_owned()),
            None => None,
        }
    }

    /// The slot's name, or `None` where the host hands over a null buffer.
    pub fn name<H: Host>(&self, host: &H) -> (r: Option<String>)
        ensures
            exists|buffer: Extern<String>|
                #![trigger call_ensures(H::slot_get_name, (host, self.spec_id()), buffer)]
                call_ensures(H::slot_get_name, (host, self.spec_id()), buffer) && Self::name_of(
                    buffer,
                    r,
                ),
    {
        let buffer = host.slot_get_name(self.id());
        Self::name_from(&buffer)
    }

    /// Renames the slot: one call to the host, with this slot's handle and
    /// the name as given. The host answers nothing.
    pub fn set_name<H: Host>(&self, host: &H, name: &str)
        requires
            c_compatible(name@),
        ensures
            call_ensures(H::slot_set_name, (host, self.spec_id(), name), ()),
    {
        host.slot_set_name(self.id(), name);
    }

    /// The children of this slot.
    pub fn children(&self) -> (r: SlotChildren<'_>)
        ensures
            r.spec_slot() == *self,
    {
        SlotChildren(self)
    }
}

/// Whether `child` is what a lookup makes of an answer of the host to the
/// question for the child of `parent` at `index`: nothing of the zero handle,
/// else the wrapper of the handle that the host gave.
pub open spec fn child_at<H: Host>(
    host: &H,
    parent: RefId<Slot>,
    index: u32,
    child: Option<Slot>,
) -> bool {
    exists|reply: RefId<Slot>|
        #![trigger call_ensures(H::slot_get_child, (host, parent, index), reply)]
        call_ensures(H::slot_get_child, (host, parent, index), reply)
            && child == reply.spec_filter_invalid()
            && filters_to(reply, child)
}

/// The children of a slot, as the host reports them at each call.
#[derive(Debug)]
pub struct SlotChildren<'a>(&'a Slot);

impl<'a> Clone for SlotChildren<'a> {
    fn clone(&self) -> (r: Self)
        ensures
            r == *self,
    {
        SlotChildren(self.0)
    }
}

impl<'a> SlotChildren<'a> {
    /// The slot whose children these are.
    pub closed spec fn spec_slot(&self) -> Slot {
        *self.0
    }

    /// The slot whose children these are.
    pub fn slot(&self) -> (r: &'a Slot)
        ensures
            *r == self.spec_slot(),
    {
        self.0
    }

    /// The child at `i`, or `None` where the host names none there: past the
    /// end the host answers with the zero handle. The index goes out as its
    /// low 32 bits.
    pub fn get<H: Host>(&self, host: &H, i: usize) -> (r: Option<Slot>)
        ensures
            child_at(host, self.spec_slot().spec_id(), spec_low_word(i), r),
    {
        let reply = host.slot_get_child(self.0.id(), low_word(i));
        proof {
            Slot::lemma_filter_invalid(reply);
        }
        reply.filter_invalid()
    }

    /// How many children the host reports.
    pub fn len<H: Host>(&self, host: &H) -> (r: usize)
        ensures
            exists|n: i32|
                #![trigger call_ensures(H::slot_get_num_children, (host, self.spec_slot().spec_id()), n)]
                call_ensures(H::slot_get_num_children, (host, self.spec_slot().spec_id()), n) && r
                    == spec_count(n),
    {
        let n: i32 = host.slot_get_num_children(self.0.id());
        count(n)
    }

    /// A slot below this one by its name, or `None` where the host finds
    /// none. The flags go out as `1` or `0`, the depth as its low 32 bits;
    /// what they mean to the search is the host's business.
    pub fn find_by_name<H: Host>(
        &self,
        host: &H,
        name: &str,
        match_substring: bool,
        ignore_case: bool,
        max_depth: usize,
    ) -> (r: Option<Slot>)
        requires
            c_compatible(name@),
        ensures
            exists|reply: RefId<Slot>|
                #![trigger call_ensures(H::slot_find_child_by_name, (host, self.spec_slot().spec_id(), name, spec_flag(match_substring), spec_flag(ignore_case), spec_low_word(max_depth)), reply)]
                call_ensures(
                    H::slot_find_child_by_name,
                    (
                        host,
                        self.spec_slot().spec_id(),
                        name,
                        spec_flag(match_substring),
                        spec_flag(ignore_case),
                        spec_low_word(max_depth),
                    ),
                    reply,
                )
                    && r == reply.spec_filter_invalid()
                    && filters_to(reply, r),
    {
        let reply = host.slot_find_child_by_name(
            self.0.id(),
            name,
            flag(match_substring),
            flag(ignore_case),
            low_word(max_depth),
        );
        proof {
            Slot::lemma_filter_invalid(reply);
        }
        reply.filter_invalid()
    }

    /// A slot below this one by its tag, or `None` where the host finds
    /// none. The depth goes out as its low 32 bits; what it means to the
    /// search is the host's business.
    pub fn find_by_tag<H: Host>(&self, host: &H, tag: &str, max_depth: usize) -> (r: Option<Slot>)
        requires
            c_compatible(tag@),
        ensures
            exists|reply: RefId<Slot>|
                #![trigger call_ensures(H::slot_find_child_by_tag, (host, self.spec_slot().spec_id(), tag, spec_low_word(max_depth)), reply)]
                call_ensures(
                    H::slot_find_child_by_tag,
                    (host, self.spec_slot().spec_id(), tag, spec_low_word(max_depth)),
                    reply,
                )
                    && r == reply.spec_filter_invalid()
                    && filters_to(reply, r),
    {
        let reply = host.slot_find_child_by_tag(self.0.id(), tag, low_word(max_depth));
        proof {
            Slot::lemma_filter_invalid(reply);
        }
        reply.filter_invalid()
    }

    /// The children from the first up to the first index at which the host
    /// names none, each as the host named it when the walk reached it.
    pub fn collect<H: Host>(&self, host: &H) -> (r: Vec<Slot>)
        ensures
            r@.len() <= u32::MAX,
            forall|i: int|
                0 <= i < r@.len() ==> #[trigger] child_at(
                    host,
                    self.spec_slot().spec_id(),
                    i as u32,
                    Some(r@[i]),
                ),
            r@.len() < u32::MAX ==> child_at(
                host,
                self.spec_slot().spec_id(),
                r@.len() as u32,
                None,
            ),
    {
        let mut found: Vec<Slot> = Vec::new();
        let mut walk = self.iter();
        while walk.index() < u32::MAX
            invariant
                walk.spec_slot() == self.spec_slot(),
                walk.spec_index() == found@.len(),
                forall|i: int|
                    0 <= i < found@.len() ==> #[trigger] child_at(
                        host,
                        self.spec_slot().spec_id(),
                        i as u32,
                        Some(found@[i]),
                    ),
            decreases u32::MAX - walk.spec_index(),
        {
            match walk.next(host) {
                Some(child) => {
                    found.push(child);
                },
                None => {
                    return found;
                },
            }
        }
        found
    }

    /// A walk over the children, starting at the first.
    pub fn iter(&self) -> (r: SlotChildrenIterator<'a>)
        ensures
            r.spec_slot() == self.spec_slot(),
            r.spec_index() == 0,
    {
        SlotChildrenIterator { slot: SlotChildren(self.0), index: 0 }
    }
}

/// A position in the walk over a slot's children.
///
/// Nothing is remembered of the children themselves: each step asks the host
/// anew, so a walk sees the children as they are when it reaches them.
pub struct SlotChildrenIterator<'a> {
    slot: SlotChildren<'a>,
    index: u32,
}

impl<'a> SlotChildrenIterator<'a> {
    /// The slot whose children are walked.
    pub closed spec fn spec_slot(&self) -> Slot {
        self.slot.spec_slot()
    }

    /// The index that the next step asks for.
    pub closed spec fn spec_index(&self) -> u32 {
        self.index
    }

    /// The index that the next step asks for.
    #[verifier::when_used_as_spec(spec_index)]
    pub fn index(&self) -> (r: u32)
        ensures
            r == self.spec_index(),
    {
        self.index
    }

    /// One step: asks the host for the child at the current index and moves
    /// on by one, whatever the answer. `None` where the host names no child
    /// there.
    pub fn next<H: Host>(&mut self, host: &H) -> (r: Option<Slot>)
        requires
            old(self).spec_index() < u32::MAX,
        ensures
            final(self).spec_index() == old(self).spec_index() + 1,
            final(self).spec_slot() == old(self).spec_slot(),
            child_at(host, old(self).spec_slot().spec_id(), old(self).spec_index(), r),
    {
        let index: u32 = self.index;
        self.index = index + 1;
        let reply = host.slot_get_child(self.slot.0.id(), index);
        proof {
            Slot::lemma_filter_invalid(reply);
        }
        reply.filter_invalid()
    }
}

} // verus!
