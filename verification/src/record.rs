//! Record-like aggregate entities: an identifier and optional documentation,
//! with a builder and a construction-expression renderer.

use vstd::prelude::*;

use crate::docs::doc_error;
use crate::docs::extract_documentation;
use crate::docs::extracted;
use crate::error::Error;
use crate::expr::opt_plain;
use crate::expr::plain_lit;
use crate::expr::push_opt_plain;
use crate::expr::push_plain_lit;
use crate::node::RecordNode;
use crate::text::opt_ref_view;
use crate::text::opt_view;

verus! {

/// The mathematical picture of a [`Struct`]: its identifier and optional
/// documentation as character sequences.
#[verifier::ext_equal]
pub ghost struct StructModel {
    /// The identifier.
    pub identifier: Seq<char>,
    /// The documentation, if any.
    pub documentation: Option<Seq<char>>,
}

/// A record-like aggregate entity.
#[derive(Debug, PartialEq, Eq)]
pub struct Struct {
    identifier: String,
    documentation: Option<String>,
}

impl View for Struct {
    type V = StructModel;

    closed spec fn view(&self) -> StructModel {
        StructModel { identifier: self.identifier@, documentation: opt_view(self.documentation) }
    }
}

/// The construction expression of an aggregate entity:
/// `::introspect::Struct::new("id".into(), doc)`.
pub open spec fn struct_render(m: StructModel) -> Seq<char> {
    "::introspect::Struct::new("@ + plain_lit(m.identifier) + ", "@ + opt_plain(m.documentation)
        + ")"@
}

/// The [`Struct`] a [`RecordNode`] converts to when its documentation
/// extraction succeeds.
pub open spec fn struct_model(node: RecordNode) -> StructModel {
    StructModel { identifier: node.identifier@, documentation: extracted(node.annotations@) }
}

impl Struct {
    /// Creates a new [`Struct`] from its identifier and optional
    /// documentation.
    pub fn new(identifier: String, documentation: Option<String>) -> (r: Self)
        ensures
            r@.identifier == identifier@,
            r@.documentation == opt_view(documentation),
    {
        Self { identifier, documentation }
    }

    /// The identifier of the [`Struct`].
    pub fn identifier(&self) -> (r: &str)
        ensures
            r@ == self@.identifier,
    {
        self.identifier.as_str()
    }

    /// The documentation of the [`Struct`], if any.
    pub fn documentation(&self) -> (r: Option<&str>)
        ensures
            opt_ref_view(r) == self@.documentation,
    {
        match &self.documentation {
            Some(d) => Some(d.as_str()),
            None => None,
        }
    }

    /// Renders the construction expression that rebuilds this value, as
    /// [`struct_render`] describes.
    pub fn render(&self) -> (r: String)
        ensures
            r@ == struct_render(self@),
    {
        let mut out = String::new();
        out.append("::introspect::Struct::new(");
        push_plain_lit(&mut out, self.identifier.as_str());
        out.append(", ");
        push_opt_plain(&mut out, &self.documentation);
        out.append(")");
        out
    }

    /// Converts a parsed aggregate node into a [`Struct`]: the node's name
    /// becomes the identifier, and the documentation is extracted from the
    /// node's own annotations.
    pub fn from_node(node: &RecordNode) -> (r: Result<Self, Error>)
        ensures
            doc_error(node.annotations@) matches Some(e) ==> r == Err::<Struct, Error>(e),
            doc_error(node.annotations@) is None ==> (r matches Ok(st) && st@ == struct_model(
                *node,
            )),
    {
        match extract_documentation(&node.annotations) {
            Ok(documentation) => Ok(
                Self { identifier: node.identifier.clone(), documentation },
            ),
            Err(e) => Err(e),
        }
    }
}

/// The mathematical picture of a [`Builder`]: which fields have been set so
/// far.
#[verifier::ext_equal]
pub ghost struct BuilderModel {
    /// The identifier, if one was set.
    pub identifier: Option<Seq<char>>,
    /// The documentation, if one was set.
    pub documentation: Option<Seq<char>>,
}

/// A staged constructor for a [`Struct`]: setters may run in any order, and
/// finalization validates that an identifier was set.
#[derive(Debug)]
pub struct Builder {
    identifier: Option<String>,
    documentation: Option<String>,
}

impl View for Builder {
    type V = BuilderModel;

    closed spec fn view(&self) -> BuilderModel {
        BuilderModel {
            identifier: opt_view(self.identifier),
            documentation: opt_view(self.documentation),
        }
    }
}

impl Default for Builder {
    /// An empty builder: nothing set yet.
    fn default() -> (r: Self)
        ensures
            r@.identifier is None,
            r@.documentation is None,
    {
        Self { identifier: None, documentation: None }
    }
}

impl Builder {
    /// Sets the identifier; a later call overrides an earlier one.
    pub fn identifier(self, value: String) -> (r: Self)
        ensures
            r@.identifier == Some(value@),
            r@.documentation == self@.documentation,
    {
        Self { identifier: Some(value), documentation: self.documentation }
    }

    /// Sets the documentation; a later call overrides an earlier one.
    pub fn documentation(self, value: String) -> (r: Self)
        ensures
            r@.documentation == Some(value@),
            r@.identifier == self@.identifier,
    {
        Self { identifier: self.identifier, documentation: Some(value) }
    }

    /// Consumes the builder to produce an immutable [`Struct`]; fails exactly
    /// when no identifier was ever set.
    pub fn try_build(self) -> (r: Result<Struct, Error>)
        ensures
            self@.identifier is None ==> r == Err::<Struct, Error>(Error::MissingIdentifier),
            self@.identifier matches Some(id) ==> (r matches Ok(st) && st@.identifier == id
                && st@.documentation == self@.documentation),
    {
        match self.identifier {
            Some(identifier) => Ok(Struct { identifier, documentation: self.documentation }),
            None => Err(Error::MissingIdentifier),
        }
    }
}

} // verus!
