//! Components and the lookup of their members by name.

use crate::error::{derg_result, spec_derg_result, DergError, DergResult};
use crate::host::Host;
use crate::marshal::c_compatible;
use crate::ref_id::{lemma_reinterpret_keeps_raw, RefId, Unknown};
use crate::value::Value;
use vstd::prelude::*;
use vstd::std_specs::convert::FromSpec;

verus! {

/// A non-owning reference to a component: a behaviour or data object on a slot.
///
/// It does not own the object: the host may destroy it at any time, and then
/// answers every call on the wrapper with an absence or an error.
#[derive(Debug)]
pub struct Component(u64);

impl View for Component {
    type V = u64;

    /// The integer of the handle that the wrapper was made from.
    closed spec fn view(&self) -> u64 {
        self.0
    }
}

impl Clone for Component {
    fn clone(&self) -> (r: Self)
        ensures
            r == *self,
    {
        Component(self.0)
    }
}

impl From<RefId<Component>> for Component {
    fn from(value: RefId<Component>) -> (r: Self) {
        Component(value.raw())
    }
}

impl vstd::std_specs::convert::FromSpecImpl<RefId<Component>> for Component {
    open spec fn obeys_from_spec() -> bool {
        true
    }

    closed spec fn from_spec(value: RefId<Component>) -> Self {
        Component(value@)
    }
}

impl Component {
    /// The handle of the wrapper.
    pub open spec fn spec_id(&self) -> RefId<Component> {
        RefId::spec_from_raw(self@)
    }

    /// The handle of the wrapper.
    #[verifier::when_used_as_spec(spec_id)]
    pub fn id(&self) -> (r: RefId<Component>)
        ensures
            r == self.spec_id(),
            r@ == self@,
    {
        RefId::from_raw(self.0)
    }

    /// Conversion keeps the handle: the wrapper made from `h` has the integer
    /// of `h`, and its handle is `h` again.
    pub proof fn lemma_from_keeps_handle(h: RefId<Component>)
        ensures
            Component::from_spec(h)@ == h@,
            Component::from_spec(h).spec_id() == h,
    {
        RefId::<Component>::lemma_from_raw(h@);
        RefId::<Component>::lemma_view_injective(Component::from_spec(h).spec_id(), h);
    }

    /// Filtering the zero handle gives nothing; filtering any other handle
    /// gives a wrapper of that very handle.
    pub proof fn lemma_filter_invalid(h: RefId<Component>)
        ensures
            h@ == 0 ==> h.spec_filter_invalid() is None,
            h@ != 0 ==> h.spec_filter_invalid() is Some,
            h@ != 0 ==> h.spec_filter_invalid().unwrap()@ == h@,
            h@ != 0 ==> h.spec_filter_invalid().unwrap().spec_id() == h,
    {
        Component::lemma_from_keeps_handle(h);
    }
}

/// What the host answers to a member lookup.
#[derive(Clone, Copy, Debug)]
pub struct MemberReply {
    /// The status of the lookup.
    pub status: i32,
    /// The kind of the member, as the host numbers kinds.
    pub type_code: i32,
    /// The member's handle, still untyped.
    pub handle: RefId<Unknown>,
}

/// The host's number for an integer-valued member.
pub const TYPE_CODE_INT: i32 = 0x1;

/// A member of a component, by its kind.
#[derive(Debug)]
pub enum Member {
    /// An integer-valued storage cell.
    ValueInt(Value<i32>),
}

impl Member {
    /// What a lookup returns for the host's reply. The status comes first:
    /// anything but `0` is its error, whatever kind and handle came with it.
    /// Then the kind: any but a known one is `Unknown`, whatever the handle.
    /// Then the handle: zero names no member and is `NullOrNotFound`; any
    /// other handle is typed by the kind.
    pub open spec fn spec_from_reply(reply: MemberReply) -> Result<Member, DergError> {
        match spec_derg_result(reply.status) {
            Err(e) => Err(e),
            Ok(_) => if reply.type_code != TYPE_CODE_INT {
                Err(DergError::Unknown)
            } else if reply.handle@ == 0 {
                Err(DergError::NullOrNotFound)
            } else {
                Ok(
                    Member::ValueInt(
                        Value::<i32>::spec_of(reply.handle.spec_reinterpret::<Value<i32>>()),
                    ),
                )
            },
        }
    }

    /// Interprets the host's answer to a member lookup.
    pub fn from_reply(reply: MemberReply) -> (r: DergResult<Member>)
        ensures
            r == Self::spec_from_reply(reply),
            r matches Ok(Member::ValueInt(v)) ==> v@ == reply.handle@ && v@ != 0,
    {
        match derg_result(reply.status) {
            Err(e) => Err(e),
            Ok(_) => {
                if reply.type_code != TYPE_CODE_INT {
                    Err(DergError::Unknown)
                } else {
                    let typed: RefId<Value<i32>> = reply.handle.reinterpret::<Value<i32>>();
                    if typed.valid() {
                        Ok(Member::ValueInt(Value::of(typed)))
                    } else {
                        Err(DergError::NullOrNotFound)
                    }
                }
            },
        }
    }

    /// A lookup succeeds exactly on status `0` with the integer kind and a
    /// handle other than zero, and the member then holds the handle that the
    /// host gave. It is `NullOrNotFound` exactly on status `-1`, and on
    /// status `0` with the integer kind and the zero handle. Everything else
    /// is `Unknown`: so is an unrecognised kind on status `0`, whatever the
    /// handle.
    pub proof fn lemma_from_reply(reply: MemberReply)
        ensures
            Self::spec_from_reply(reply) is Ok <==> (reply.status == 0 && reply.type_code
                == TYPE_CODE_INT && reply.handle@ != 0),
            Self::spec_from_reply(reply) matches Ok(Member::ValueInt(v)) ==> v@ == reply.handle@
                && v@ != 0,
            Self::spec_from_reply(reply) == Err::<Member, DergError>(DergError::NullOrNotFound)
                <==> (reply.status == -1 || (reply.status == 0 && reply.type_code
                == TYPE_CODE_INT && reply.handle@ == 0)),
            Self::spec_from_reply(reply) == Err::<Member, DergError>(DergError::Unknown) <==> (
            reply.status != -1 && !(reply.status == 0 && reply.type_code == TYPE_CODE_INT)),
            (reply.status == 0 && reply.type_code != TYPE_CODE_INT) ==> Self::spec_from_reply(reply)
                == Err::<Member, DergError>(DergError::Unknown),
    {
        Value::<i32>::lemma_of_keeps_handle(reply.handle.spec_reinterpret::<Value<i32>>());
        lemma_reinterpret_keeps_raw::<Value<i32>>(reply.handle);
    }
}

impl Component {
    /// Looks a member up by its name: one call to the host, whose reply
    /// `Member::from_reply` interprets. A member is handed out only with a
    /// handle other than zero.
    pub fn member_by_name<H: Host>(&self, host: &H, name: &str) -> (r: DergResult<Member>)
        requires
            c_compatible(name@),
        ensures
            exists|reply: MemberReply|
                #![trigger call_ensures(H::component_get_member, (host, self.spec_id(), name), reply)]
                call_ensures(H::component_get_member, (host, self.spec_id(), name), reply) && r
                    == Member::spec_from_reply(reply) && (r matches Ok(Member::ValueInt(v))
                    ==> v@ == reply.handle@ && v@ != 0),
    {
        let reply = host.component_get_member(self.id(), name);
        Member::from_reply(reply)
    }
}

} // verus!
