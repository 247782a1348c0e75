//! Typed, validity-checked handles to objects that live inside a host engine's
//! scene graph, and the accessors that turn the host's replies into values.
//!
//! The host owns every object. This crate holds only opaque 64-bit handles,
//! decides what a reply means, and prepares the arguments of each call. The
//! calls themselves go through the [`Host`] trait, which the embedding module
//! implements over the imported functions.

pub mod component;
pub mod console;
pub mod error;
pub mod external;
pub mod host;
pub mod marshal;
pub mod ref_id;
pub mod slot;
pub mod user;
pub mod user_root;
pub mod value;

pub use component::{Component, Member, MemberReply};
pub use console::Console;
pub use error::{derg_result, DergError, DergResult};
pub use external::Extern;
pub use host::Host;
pub use ref_id::{RefId, Unknown};
pub use slot::{Slot, SlotChildren, SlotChildrenIterator};
pub use user::User;
pub use user_root::UserRoot;
pub use value::Value;
