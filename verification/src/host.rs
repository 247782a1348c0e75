//! The functions that the host offers, as one interface.
//!
//! The embedding module implements `Host` over the functions it imports; a
//! test implements it over canned replies. No method promises anything about
//! its reply: each accessor of this crate states its result in terms of
//! whatever reply the host gave to the one call that the accessor made.

use crate::component::{Component, MemberReply};
use crate::external::Extern;
use crate::marshal::c_compatible;
use crate::ref_id::RefId;
use crate::slot::Slot;
use crate::user::User;
use crate::user_root::UserRoot;
use crate::value::Value;
use vstd::prelude::*;

verus! {

/// The host's side of the boundary. A handle in a reply is zero where the
/// host has no object to name. Strings go out without a NUL of their own.
pub trait Host {
    /// The root of the scene graph.
    fn slot_root_slot(&self) -> RefId<Slot>;

    /// The slot above `slot`.
    fn slot_get_parent(&self, slot: RefId<Slot>) -> RefId<Slot>;

    /// The user that `slot` belongs to.
    fn slot_get_active_user(&self, slot: RefId<Slot>) -> RefId<User>;

    /// The root of the user that `slot` belongs to.
    fn slot_get_active_user_root(&self, slot: RefId<Slot>) -> RefId<UserRoot>;

    /// The root of the object that `slot` is part of; `only_explicit` is 0 or 1.
    fn slot_get_object_root(&self, slot: RefId<Slot>, only_explicit: i32) -> RefId<Slot>;

    /// The name of `slot`, read out of the host's buffer and the buffer released.
    fn slot_get_name(&self, slot: RefId<Slot>) -> Extern<String>;

    /// Renames `slot`.
    fn slot_set_name(&self, slot: RefId<Slot>, name: &str)
        requires
            c_compatible(name@),
    ;

    /// How many children `slot` has.
    fn slot_get_num_children(&self, slot: RefId<Slot>) -> i32;

    /// The child of `slot` at `index`.
    fn slot_get_child(&self, slot: RefId<Slot>, index: u32) -> RefId<Slot>;

    /// A slot below `slot` by its name; the two flags are 0 or 1.
    fn slot_find_child_by_name(
        &self,
        slot: RefId<Slot>,
        name: &str,
        match_substring: u32,
        ignore_case: u32,
        max_depth: u32,
    ) -> RefId<Slot>
        requires
            c_compatible(name@),
    ;

    /// A slot below `slot` by its tag.
    fn slot_find_child_by_tag(&self, slot: RefId<Slot>, tag: &str, max_depth: u32) -> RefId<Slot>
        requires
            c_compatible(tag@),
    ;

    /// The member of `component` called `name`: a status, and with it the
    /// member's kind and handle.
    fn component_get_member(&self, component: RefId<Component>, name: &str) -> MemberReply
        requires
            c_compatible(name@),
    ;

    /// Reads an integer value: a status and the value.
    fn value_get_int(&self, value: RefId<Value<i32>>) -> (i32, i32);

    /// Writes an integer value: a status.
    fn value_set_int(&self, value: RefId<Value<i32>>, val: i32) -> i32;

    /// Writes `len` bytes to the host's console.
    fn mp_js_write(&self, bytes: &[u8], len: i32);
}

} // verus!
