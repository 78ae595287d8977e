//! The top-level introspected construct: a record-like aggregate or an
//! enumeration, as a closed tagged union.

use vstd::prelude::*;

use crate::enumeration::Enum;
use crate::enumeration::EnumModel;
use crate::enumeration::enum_render;
use crate::record::Struct;
use crate::record::StructModel;
use crate::record::struct_render;

verus! {

/// The mathematical picture of an [`Entity`].
#[verifier::ext_equal]
pub ghost enum EntityModel {
    /// An enumeration entity.
    Enum(EnumModel),
    /// An aggregate entity.
    Struct(StructModel),
}

/// The top-level introspected construct.
#[derive(Debug, PartialEq, Eq)]
pub enum Entity {
    /// An enumeration entity.
    Enum(Enum),
    /// An aggregate entity.
    Struct(Struct),
}

impl View for Entity {
    type V = EntityModel;

    open spec fn view(&self) -> EntityModel {
        match self {
            Entity::Enum(e) => EntityModel::Enum(e@),
            Entity::Struct(s) => EntityModel::Struct(s@),
        }
    }
}

/// The construction expression of an entity: the inner rendering wrapped in
/// a tagged constructor call, tag matching the active case.
pub open spec fn entity_render(m: EntityModel) -> Seq<char> {
    match m {
        EntityModel::Enum(e) => "::introspect::Entity::Enum("@ + enum_render(e) + ")"@,
        EntityModel::Struct(s) => "::introspect::Entity::Struct("@ + struct_render(s) + ")"@,
    }
}

impl Entity {
    /// Renders the construction expression that rebuilds this value, as
    /// [`entity_render`] describes.
    pub fn render(&self) -> (r: String)
        ensures
            r@ == entity_render(self@),
    {
        let mut out = String::new();
        match self {
            Entity::Enum(e) => {
                out.append("::introspect::Entity::Enum(");
                let inner = e.render();
                out.append(inner.as_str());
                out.append(")");
            },
            Entity::Struct(s) => {
                out.append("::introspect::Entity::Struct(");
                let inner = s.render();
                out.append(inner.as_str());
                out.append(")");
            },
        }
        out
    }
}

} // verus!
