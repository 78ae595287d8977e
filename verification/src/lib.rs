//! Compile-time introspection metadata for record-like and enumeration-like
//! constructs: identifier names and documentation text, extracted from source
//! annotations, modeled as immutable values, and re-emitted as construction
//! expressions spliced into generated code.

mod error;
pub mod docs;
pub mod entity;
pub mod enumeration;
pub mod expr;
pub mod field;
pub mod generate;
pub mod member;
pub mod node;
pub mod parse;
pub mod record;
pub mod text;
pub mod variant;

pub use entity::Entity;
pub use enumeration::Enum;
pub use error::Error;
pub use field::Field;
pub use member::Member;
pub use record::Struct;
pub use variant::Variant;

use vstd::prelude::*;

verus! {

/// Introspection of a construct's top-level characteristics; generated code
/// implements this for each annotated construct.
pub trait IntrospectedEntity {
    /// The introspected entity.
    fn introspected_entity() -> Entity;
}

/// Introspection of a construct's members; generated code implements this
/// for each annotated construct.
pub trait IntrospectedMembers {
    /// The introspected entity's members, in source order.
    fn introspected_members() -> Vec<Member>;
}

/// The full introspection capability supported by this crate.
pub trait Introspected: IntrospectedEntity + IntrospectedMembers {

}

} // verus!
