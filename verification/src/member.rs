//! A member of an introspected construct: an aggregate field or an
//! enumeration case, as a closed tagged union.

use vstd::prelude::*;

use crate::field::Field;
use crate::field::FieldModel;
use crate::field::field_render;
use crate::variant::Variant;
use crate::variant::VariantModel;
use crate::variant::variant_render;

verus! {

/// The mathematical picture of a [`Member`].
#[verifier::ext_equal]
pub ghost enum MemberModel {
    /// An aggregate field.
    Field(FieldModel),
    /// An enumeration case.
    Variant(VariantModel),
}

/// A member of an introspected construct.
#[derive(Debug, PartialEq, Eq)]
pub enum Member {
    /// An aggregate field.
    Field(Field),
    /// An enumeration case.
    Variant(Variant),
}

impl View for Member {
    type V = MemberModel;

    open spec fn view(&self) -> MemberModel {
        match self {
            Member::Field(f) => MemberModel::Field(f@),
            Member::Variant(v) => MemberModel::Variant(v@),
        }
    }
}

/// The construction expression of a member: the inner rendering wrapped in a
/// tagged constructor call, tag matching the active case.
pub open spec fn member_render(m: MemberModel) -> Seq<char> {
    match m {
        MemberModel::Field(f) => "::introspect::Member::Field("@ + field_render(f) + ")"@,
        MemberModel::Variant(v) => "::introspect::Member::Variant("@ + variant_render(v) + ")"@,
    }
}

impl Member {
    /// Renders the construction expression that rebuilds this value, as
    /// [`member_render`] describes.
    pub fn render(&self) -> (r: String)
        ensures
            r@ == member_render(self@),
    {
        let mut out = String::new();
        match self {
            Member::Field(f) => {
                out.append("::introspect::Member::Field(");
                let inner = f.render();
                out.append(inner.as_str());
                out.append(")");
            },
            Member::Variant(v) => {
                out.append("::introspect::Member::Variant(");
                let inner = v.render();
                out.append(inner.as_str());
                out.append(")");
            },
        }
        out
    }
}

} // verus!
