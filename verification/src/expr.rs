//! Shared pieces of construction-expression text: quoted string literals,
//! raw string literals, and the explicit present/absent rendering of
//! optional values.
//!
//! A plain quoted literal is re-parseable only when the text holds no quote
//! and no backslash; the raw form only when it holds no `"#` pair. The
//! renderers use the form the corresponding constructor call expects, and
//! the round-trip statements restrict themselves to texts each form can
//! carry.

use vstd::prelude::*;

use crate::text::opt_view;

verus! {

/// The text of a plain quoted literal with an `.into()` conversion:
/// `"s".into()`.
pub open spec fn plain_lit(s: Seq<char>) -> Seq<char> {
    "\""@ + s + "\".into()"@
}

/// The text of a raw string literal with an `.into()` conversion:
/// `r#"s"#.into()`.
pub open spec fn raw_lit(s: Seq<char>) -> Seq<char> {
    "r#\""@ + s + "\"#.into()"@
}

/// The text of an optional value rendered with plain quoted literals:
/// `Some("s".into())` or `None`.
pub open spec fn opt_plain(o: Option<Seq<char>>) -> Seq<char> {
    match o {
        Some(s) => "Some("@ + plain_lit(s) + ")"@,
        None => "None"@,
    }
}

/// The text of an optional value rendered with raw string literals:
/// `Some(r#"s"#.into())` or `None`.
pub open spec fn opt_raw(o: Option<Seq<char>>) -> Seq<char> {
    match o {
        Some(s) => "Some("@ + raw_lit(s) + ")"@,
        None => "None"@,
    }
}

/// Appends `"s".into()` to `out`.
pub fn push_plain_lit(out: &mut String, s: &str)
    ensures
        final(out)@ == old(out)@ + plain_lit(s@),
{
    out.append("\"");
    out.append(s);
    out.append("\".into()");
}

/// Appends `r#"s"#.into()` to `out`.
pub fn push_raw_lit(out: &mut String, s: &str)
    ensures
        final(out)@ == old(out)@ + raw_lit(s@),
{
    out.append("r#\"");
    out.append(s);
    out.append("\"#.into()");
}

/// Appends `Some("s".into())` or `None` to `out`.
pub fn push_opt_plain(out: &mut String, o: &Option<String>)
    ensures
        final(out)@ == old(out)@ + opt_plain(opt_view(*o)),
{
    match o {
        Some(s) => {
            out.append("Some(");
            push_plain_lit(out, s.as_str());
            out.append(")");
        },
        None => {
            out.append("None");
        },
    }
}

/// Appends `Some(r#"s"#.into())` or `None` to `out`.
pub fn push_opt_raw(out: &mut String, o: &Option<String>)
    ensures
        final(out)@ == old(out)@ + opt_raw(opt_view(*o)),
{
    match o {
        Some(s) => {
            out.append("Some(");
            push_raw_lit(out, s.as_str());
            out.append(")");
        },
        None => {
            out.append("None");
        },
    }
}

} // verus!
