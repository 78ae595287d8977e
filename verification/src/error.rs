//! The error conditions that can arise while extracting documentation,
//! finalizing builders, or generating code.

use vstd::prelude::*;

verus! {

/// An error arising anywhere in the extraction / build / generation pipeline.
#[derive(Debug, Clone, Copy, PartialEq, Eq, Structural)]
pub enum Error {
    /// A documentation annotation's value is not a literal expression.
    UnsupportedExpression,
    /// A documentation annotation's value is a literal, but not a string
    /// literal.
    UnsupportedExpressionLiteral,
    /// A builder for a kind that requires an identifier was finalized
    /// without one ever being set.
    MissingIdentifier,
    /// The annotated construct is neither a record-like aggregate nor an
    /// enumeration.
    UnsupportedConstructKind,
}

impl Error {
    /// The human-readable message carried into a compile-time diagnostic.
    pub fn message(&self) -> (r: String)
        ensures
            *self == Error::UnsupportedExpression ==> r@ == "unsupported doc attribute expression"@,
            *self == Error::UnsupportedExpressionLiteral ==> r@
                == "unsupported doc attribute literal"@,
            *self == Error::MissingIdentifier ==> r@ == "missing identifier"@,
            *self == Error::UnsupportedConstructKind ==> r@
                == "Introspect can only be derived for `enum`s and `struct`s"@,
    {
        match self {
            Error::UnsupportedExpression => "unsupported doc attribute expression".to_owned(),
            Error::UnsupportedExpressionLiteral => "unsupported doc attribute literal".to_owned(),
            Error::MissingIdentifier => "missing identifier".to_owned(),
            Error::UnsupportedConstructKind => {
                "Introspect can only be derived for `enum`s and `struct`s".to_owned()
            },
        }
    }
}

} // verus!
