//! Enumeration cases: an identifier and optional documentation, with a
//! builder and a construction-expression renderer that uses raw string
//! literals throughout.

use vstd::prelude::*;

use crate::docs::doc_error;
use crate::docs::extract_documentation;
use crate::docs::extracted;
use crate::error::Error;
use crate::expr::opt_raw;
use crate::expr::push_opt_raw;
use crate::expr::push_raw_lit;
use crate::expr::raw_lit;
use crate::node::VariantNode;
use crate::text::opt_ref_view;
use crate::text::opt_view;

verus! {

/// The mathematical picture of a [`Variant`]: its identifier and optional
/// documentation as character sequences.
#[verifier::ext_equal]
pub ghost struct VariantModel {
    /// The identifier.
    pub identifier: Seq<char>,
    /// The documentation, if any.
    pub documentation: Option<Seq<char>>,
}

/// One case of an enumeration entity.
#[derive(Debug, PartialEq, Eq)]
pub struct Variant {
    identifier: String,
    documentation: Option<String>,
}

impl View for Variant {
    type V = VariantModel;

    closed spec fn view(&self) -> VariantModel {
        VariantModel { identifier: self.identifier@, documentation: opt_view(self.documentation) }
    }
}

/// The construction expression of an enumeration case:
/// `::introspect::r#enum::Variant::new(r#"id"#.into(), doc)`, with raw
/// string literals for both arguments.
pub open spec fn variant_render(m: VariantModel) -> Seq<char> {
    "::introspect::r#enum::Variant::new("@ + raw_lit(m.identifier) + ", "@ + opt_raw(
        m.documentation,
    ) + ")"@
}

/// The [`Variant`] a [`VariantNode`] converts to when its documentation
/// extraction succeeds.
pub open spec fn variant_model(node: VariantNode) -> VariantModel {
    VariantModel { identifier: node.identifier@, documentation: extracted(node.annotations@) }
}

impl Variant {
    /// Creates a new [`Variant`] from its identifier and optional
    /// documentation.
    pub fn new(identifier: String, documentation: Option<String>) -> (r: Self)
        ensures
            r@.identifier == identifier@,
            r@.documentation == opt_view(documentation),
    {
        Self { identifier, documentation }
    }

    /// The identifier of the [`Variant`].
    pub fn identifier(&self) -> (r: &str)
        ensures
            r@ == self@.identifier,
    {
        self.identifier.as_str()
    }

    /// The documentation of the [`Variant`], if any.
    pub fn documentation(&self) -> (r: Option<&str>)
        ensures
            opt_ref_view(r) == self@.documentation,
    {
        match &self.documentation {
            Some(d) => Some(d.as_str()),
            None => None,
        }
    }

    /// Renders the construction expression that rebuilds this value, as
    /// [`variant_render`] describes.
    pub fn render(&self) -> (r: String)
        ensures
            r@ == variant_render(self@),
    {
        let mut out = String::new();
        out.append("::introspect::r#enum::Variant::new(");
        push_raw_lit(&mut out, self.identifier.as_str());
        out.append(", ");
        push_opt_raw(&mut out, &self.documentation);
        out.append(")");
        out
    }

    /// Converts a parsed case node into a [`Variant`]: the case's name
    /// becomes the identifier, and the documentation is extracted from the
    /// case's own annotations.
    pub fn from_node(node: &VariantNode) -> (r: Result<Self, Error>)
        ensures
            doc_error(node.annotations@) matches Some(e) ==> r == Err::<Variant, Error>(e),
            doc_error(node.annotations@) is None ==> (r matches Ok(v) && v@ == variant_model(
                *node,
            )),
    {
        match extract_documentation(&node.annotations) {
            Ok(documentation) => Ok(
                Self { identifier: node.identifier.clone(), documentation },
            ),
            Err(e) => Err(e),
        }
    }
}

/// The mathematical picture of a [`Builder`]: which fields have been set so
/// far.
#[verifier::ext_equal]
pub ghost struct BuilderModel {
    /// The identifier, if one was set.
    pub identifier: Option<Seq<char>>,
    /// The documentation, if one was set.
    pub documentation: Option<Seq<char>>,
}

/// A staged constructor for a [`Variant`]: setters may run in any order, and
/// finalization validates that an identifier was set.
#[derive(Debug)]
pub struct Builder {
    identifier: Option<String>,
    documentation: Option<String>,
}

impl View for Builder {
    type V = BuilderModel;

    closed spec fn view(&self) -> BuilderModel {
        BuilderModel {
            identifier: opt_view(self.identifier),
            documentation: opt_view(self.documentation),
        }
    }
}

impl Default for Builder {
    /// An empty builder: nothing set yet.
    fn default() -> (r: Self)
        ensures
            r@.identifier is None,
            r@.documentation is None,
    {
        Self { identifier: None, documentation: None }
    }
}

impl Builder {
    /// Sets the identifier; a later call overrides an earlier one.
    pub fn identifier(self, value: String) -> (r: Self)
        ensures
            r@.identifier == Some(value@),
            r@.documentation == self@.documentation,
    {
        Self { identifier: Some(value), documentation: self.documentation }
    }

    /// Sets the documentation; a later call overrides an earlier one.
    pub fn documentation(self, value: String) -> (r: Self)
        ensures
            r@.documentation == Some(value@),
            r@.identifier == self@.identifier,
    {
        Self { identifier: self.identifier, documentation: Some(value) }
    }

    /// Consumes the builder to produce an immutable [`Variant`]; fails
    /// exactly when no identifier was ever set.
    pub fn try_build(self) -> (r: Result<Variant, Error>)
        ensures
            self@.identifier is None ==> r == Err::<Variant, Error>(Error::MissingIdentifier),
            self@.identifier matches Some(id) ==> (r matches Ok(v) && v@.identifier == id
                && v@.documentation == self@.documentation),
    {
        match self.identifier {
            Some(identifier) => Ok(Variant { identifier, documentation: self.documentation }),
            None => Err(Error::MissingIdentifier),
        }
    }
}

} // verus!
