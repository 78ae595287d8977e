//! The plain-data picture of a parsed source node that the conversion layer
//! consumes: each construct and each of its members exposes its name and the
//! ordered list of its annotations.
//!
//! The host's annotation-processing facility owns the real syntax tree; the
//! boundary code reads each annotation once and records here everything the
//! extractor will ever look at.

use vstd::prelude::*;

verus! {

/// The value of a `name = value` annotation, classified by shape.
#[derive(Debug, Clone, PartialEq, Eq)]
pub enum AnnotationValue {
    /// The value is a string literal, carrying the literal's text.
    StringLiteral(String),
    /// The value is a literal expression, but not a string literal.
    OtherLiteral,
    /// The value is not a literal expression at all.
    NotLiteral,
}

/// One annotation attached to a source node, in source order.
#[derive(Debug, Clone, PartialEq, Eq)]
pub enum Annotation {
    /// An annotation of the simple `name = value` form.
    NameValue(String, AnnotationValue),
    /// Any other annotation shape; ignored by the extractor.
    Other,
}

/// A member of a record-like aggregate: an optional name (positional members
/// have none) and its annotations.
#[derive(Debug, Clone, PartialEq, Eq)]
pub struct FieldNode {
    /// The member's name, absent for positional members.
    pub identifier: Option<String>,
    /// The member's annotations, in source order.
    pub annotations: Vec<Annotation>,
}

/// A case of an enumeration: its name and its annotations.
#[derive(Debug, Clone, PartialEq, Eq)]
pub struct VariantNode {
    /// The case's name.
    pub identifier: String,
    /// The case's annotations, in source order.
    pub annotations: Vec<Annotation>,
}

/// An enumeration construct: its name, its own annotations, and its cases.
#[derive(Debug, Clone, PartialEq, Eq)]
pub struct EnumerationNode {
    /// The construct's name.
    pub identifier: String,
    /// The construct's own annotations, not its cases'.
    pub annotations: Vec<Annotation>,
    /// The cases, in source order.
    pub variants: Vec<VariantNode>,
}

/// A record-like aggregate construct: its name, its own annotations, and its
/// members.
#[derive(Debug, Clone, PartialEq, Eq)]
pub struct RecordNode {
    /// The construct's name.
    pub identifier: String,
    /// The construct's own annotations, not its members'.
    pub annotations: Vec<Annotation>,
    /// The members, in source order.
    pub fields: Vec<FieldNode>,
}

/// An annotated construct of any kind, as handed across the host boundary.
#[derive(Debug, Clone, PartialEq, Eq)]
pub enum ItemNode {
    /// An enumeration.
    Enumeration(EnumerationNode),
    /// A record-like aggregate.
    Record(RecordNode),
    /// Any other construct kind; rejected by generation.
    Other,
}

} // verus!
