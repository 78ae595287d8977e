//! Members of a record-like aggregate: an optional identifier (positional
//! members have none) and optional documentation, with a builder that cannot
//! fail and a construction-expression renderer.

use vstd::prelude::*;

use crate::docs::doc_error;
use crate::docs::extract_documentation;
use crate::docs::extracted;
use crate::error::Error;
use crate::expr::opt_plain;
use crate::expr::push_opt_plain;
use crate::node::FieldNode;
use crate::text::opt_ref_view;
use crate::text::opt_view;

verus! {

/// The mathematical picture of a [`Field`]: its optional identifier and
/// optional documentation as character sequences.
#[verifier::ext_equal]
pub ghost struct FieldModel {
    /// The identifier, absent for positional members.
    pub identifier: Option<Seq<char>>,
    /// The documentation, if any.
    pub documentation: Option<Seq<char>>,
}

/// One member of a record-like aggregate entity.
#[derive(Debug, PartialEq, Eq)]
pub struct Field {
    identifier: Option<String>,
    documentation: Option<String>,
}

impl View for Field {
    type V = FieldModel;

    closed spec fn view(&self) -> FieldModel {
        FieldModel {
            identifier: opt_view(self.identifier),
            documentation: opt_view(self.documentation),
        }
    }
}

/// The construction expression of an aggregate member:
/// `::introspect::r#struct::Field::new(id, doc)`, each argument an explicit
/// present/absent rendering.
pub open spec fn field_render(m: FieldModel) -> Seq<char> {
    "::introspect::r#struct::Field::new("@ + opt_plain(m.identifier) + ", "@ + opt_plain(
        m.documentation,
    ) + ")"@
}

/// The [`Field`] a [`FieldNode`] converts to when its documentation
/// extraction succeeds.
pub open spec fn field_model(node: FieldNode) -> FieldModel {
    FieldModel { identifier: opt_view(node.identifier), documentation: extracted(node.annotations@) }
}

impl Field {
    /// Creates a new [`Field`] from its optional identifier and optional
    /// documentation.
    pub fn new(identifier: Option<String>, documentation: Option<String>) -> (r: Self)
        ensures
            r@.identifier == opt_view(identifier),
            r@.documentation == opt_view(documentation),
    {
        Self { identifier, documentation }
    }

    /// The identifier of the [`Field`], absent for positional members.
    pub fn identifier(&self) -> (r: Option<&str>)
        ensures
            opt_ref_view(r) == self@.identifier,
    {
        match &self.identifier {
            Some(i) => Some(i.as_str()),
            None => None,
        }
    }

    /// The documentation of the [`Field`], if any.
    pub fn documentation(&self) -> (r: Option<&str>)
        ensures
            opt_ref_view(r) == self@.documentation,
    {
        match &self.documentation {
            Some(d) => Some(d.as_str()),
            None => None,
        }
    }

    /// Renders the construction expression that rebuilds this value, as
    /// [`field_render`] describes.
    pub fn render(&self) -> (r: String)
        ensures
            r@ == field_render(self@),
    {
        let mut out = String::new();
        out.append("::introspect::r#struct::Field::new(");
        push_opt_plain(&mut out, &self.identifier);
        out.append(", ");
        push_opt_plain(&mut out, &self.documentation);
        out.append(")");
        out
    }

    /// Converts a parsed member node into a [`Field`]: the member's name, if
    /// it has one, becomes the identifier, and the documentation is
    /// extracted from the member's own annotations.
    pub fn from_node(node: &FieldNode) -> (r: Result<Self, Error>)
        ensures
            doc_error(node.annotations@) matches Some(e) ==> r == Err::<Field, Error>(e),
            doc_error(node.annotations@) is None ==> (r matches Ok(f) && f@ == field_model(
                *node,
            )),
    {
        match extract_documentation(&node.annotations) {
            Ok(documentation) => Ok(
                Self { identifier: node.identifier.clone(), documentation },
            ),
            Err(e) => Err(e),
        }
    }
}

/// The mathematical picture of a [`Builder`]: which fields have been set so
/// far.
#[verifier::ext_equal]
pub ghost struct BuilderModel {
    /// The identifier, if one was set.
    pub identifier: Option<Seq<char>>,
    /// The documentation, if one was set.
    pub documentation: Option<Seq<char>>,
}

/// A staged constructor for a [`Field`]; since both parts are optional,
/// finalization always succeeds.
#[derive(Debug)]
pub struct Builder {
    identifier: Option<String>,
    documentation: Option<String>,
}

impl View for Builder {
    type V = BuilderModel;

    closed spec fn view(&self) -> BuilderModel {
        BuilderModel {
            identifier: opt_view(self.identifier),
            documentation: opt_view(self.documentation),
        }
    }
}

impl Default for Builder {
    /// An empty builder: nothing set yet.
    fn default() -> (r: Self)
        ensures
            r@.identifier is None,
            r@.documentation is None,
    {
        Self { identifier: None, documentation: None }
    }
}

impl Builder {
    /// Sets the identifier; a later call overrides an earlier one.
    pub fn identifier(self, value: String) -> (r: Self)
        ensures
            r@.identifier == Some(value@),
            r@.documentation == self@.documentation,
    {
        Self { identifier: Some(value), documentation: self.documentation }
    }

    /// Sets the documentation; a later call overrides an earlier one.
    pub fn documentation(self, value: String) -> (r: Self)
        ensures
            r@.documentation == Some(value@),
            r@.identifier == self@.identifier,
    {
        Self { identifier: self.identifier, documentation: Some(value) }
    }

    /// Consumes the builder to produce an immutable [`Field`]; both parts
    /// are optional, so this cannot fail.
    pub fn build(self) -> (r: Field)
        ensures
            r@.identifier == self@.identifier,
            r@.documentation == self@.documentation,
    {
        Field { identifier: self.identifier, documentation: self.documentation }
    }
}

} // verus!
