//! The documentation extractor: recovers a single normalized documentation
//! string (or its absence) from a node's ordered annotation list.
//!
//! Annotations that are not of the `name = value` form, or whose name is not
//! the documentation marker `doc`, are ignored. Each qualifying annotation
//! must carry a string-literal value; its text is trimmed and contributes one
//! line, in source order. The lines are joined with newlines, and an empty
//! joined result collapses to absence.

use vstd::prelude::*;

use crate::error::Error;
use crate::node::Annotation;
use crate::node::AnnotationValue;
use crate::text::joined;
use crate::text::opt_view;
use crate::text::str_views;
use crate::text::trim_spec;
use crate::text::join_lines;
use crate::text::trim_str;

verus! {

/// Whether an annotation carries the documentation marker name.
pub open spec fn is_doc(a: Annotation) -> bool {
    match a {
        Annotation::NameValue(n, _) => n@ == "doc"@,
        Annotation::Other => false,
    }
}

/// The first error among the documentation annotations of `annos`, in source
/// order: a marker annotation whose value is a non-string literal or not a
/// literal at all aborts the extraction.
pub open spec fn doc_error(annos: Seq<Annotation>) -> Option<Error>
    decreases annos.len(),
{
    if annos.len() == 0 {
        None
    } else if is_doc(annos[0]) {
        match annos[0] {
            Annotation::NameValue(_, AnnotationValue::OtherLiteral) => Some(
                Error::UnsupportedExpressionLiteral,
            ),
            Annotation::NameValue(_, AnnotationValue::NotLiteral) => Some(
                Error::UnsupportedExpression,
            ),
            _ => doc_error(annos.skip(1)),
        }
    } else {
        doc_error(annos.skip(1))
    }
}

/// The trimmed texts of the qualifying documentation annotations of `annos`,
/// in source order.
pub open spec fn doc_values(annos: Seq<Annotation>) -> Seq<Seq<char>>
    decreases annos.len(),
{
    if annos.len() == 0 {
        Seq::empty()
    } else {
        let rest = doc_values(annos.skip(1));
        if is_doc(annos[0]) {
            match annos[0] {
                Annotation::NameValue(_, AnnotationValue::StringLiteral(s)) => seq![
                    trim_spec(s@),
                ] + rest,
                _ => rest,
            }
        } else {
            rest
        }
    }
}

/// The extracted documentation of `annos`, assuming no error: the joined
/// trimmed lines, collapsed to absence when empty.
pub open spec fn extracted(annos: Seq<Annotation>) -> Option<Seq<char>> {
    let j = joined(doc_values(annos));
    if j.len() == 0 {
        None
    } else {
        Some(j)
    }
}

/// Documentation joining law: a node whose annotations are N qualifying
/// documentation annotations bearing trimmed texts `t1 .. tN` in source
/// order yields the documentation `t1 + "\n" + ... + "\n" + tN`; with N = 0
/// (or an empty joined result) the documentation is absent.
pub proof fn documentation_joining(annos: Seq<Annotation>, texts: Seq<Seq<char>>)
    requires
        annos.len() == texts.len(),
        forall|i: int| 0 <= i < annos.len() ==> ((#[trigger] annos[i]) matches Annotation::NameValue(
            n,
            AnnotationValue::StringLiteral(s),
        ) && n@ == "doc"@ && trim_spec(s@) == texts[i]),
    ensures
        doc_error(annos) is None,
        doc_values(annos) == texts,
        extracted(annos) == (if joined(texts).len() == 0 {
            None::<Seq<char>>
        } else {
            Some(joined(texts))
        }),
    decreases annos.len(),
{
    if annos.len() == 0 {
        assert(doc_values(annos) =~= texts);
    } else {
        let tail = annos.skip(1);
        let tail_texts = texts.skip(1);
        assert forall|i: int| 0 <= i < tail.len() implies ((#[trigger] tail[i]) matches Annotation::NameValue(
            n,
            AnnotationValue::StringLiteral(s),
        ) && n@ == "doc"@ && trim_spec(s@) == tail_texts[i]) by {
            assert(tail[i] == annos[i + 1]);
            assert(tail_texts[i] == texts[i + 1]);
        }
        documentation_joining(tail, tail_texts);
        assert(annos[0] matches Annotation::NameValue(_, AnnotationValue::StringLiteral(_)));
        assert(is_doc(annos[0]));
        assert(doc_values(annos) =~= texts);
    }
}

/// Absence normalization law: the extracted documentation is never an empty
/// string; an empty joined result collapses to absence.
pub proof fn absence_normalization(annos: Seq<Annotation>)
    ensures
        extracted(annos) matches Some(d) ==> d.len() > 0,
        joined(doc_values(annos)).len() == 0 ==> extracted(annos) is None,
{
}

/// Extracts the documentation carried by `annos`, as [`doc_error`] and
/// [`extracted`] describe: the trimmed texts of the `doc = "..."` annotations
/// joined with newlines, absent when the joined result is empty, and the
/// first malformed marker annotation aborting the whole extraction.
pub fn extract_documentation(annos: &Vec<Annotation>) -> (r: Result<Option<String>, Error>)
    ensures
        doc_error(annos@) matches Some(e) ==> r == Err::<Option<String>, Error>(e),
        doc_error(annos@) is None ==> (r matches Ok(d) && opt_view(d) == extracted(annos@)),
        r matches Ok(Some(s)) ==> s@.len() > 0,
{
    let marker = "doc".to_owned();
    let mut parts: Vec<String> = Vec::new();
    let mut i: usize = 0;
    proof {
        assert(annos@.skip(0) =~= annos@);
        assert(str_views(parts@) =~= Seq::<Seq<char>>::empty());
        assert(str_views(parts@) + doc_values(annos@) =~= doc_values(annos@));
    }
    while i < annos.len()
        invariant
            i <= annos@.len(),
            marker@ == "doc"@,
            doc_error(annos@) == doc_error(annos@.skip(i as int)),
            doc_values(annos@) == str_views(parts@) + doc_values(annos@.skip(i as int)),
        decreases annos@.len() - i,
    {
        let ghost tail = annos@.skip(i as int);
        proof {
            assert(tail[0] == annos@[i as int]);
            assert(tail.skip(1) =~= annos@.skip(i as int + 1));
        }
        let a = &annos[i];
        match a {
            Annotation::NameValue(name, value) => {
                if *name == marker {
                    assert(is_doc(annos@[i as int]));
                    match value {
                        AnnotationValue::StringLiteral(s) => {
                            let t = trim_str(s.as_str());
                            proof {
                                let ghost old_views = str_views(parts@);
                                assert(str_views(parts@.push(t)) =~= old_views + seq![t@]);
                                assert(old_views + (seq![trim_spec(s@)] + doc_values(tail.skip(1)))
                                    =~= (old_views + seq![trim_spec(s@)]) + doc_values(
                                    tail.skip(1),
                                ));
                            }
                            parts.push(t);
                        },
                        AnnotationValue::OtherLiteral => {
                            return Err(Error::UnsupportedExpressionLiteral);
                        },
                        AnnotationValue::NotLiteral => {
                            return Err(Error::UnsupportedExpression);
                        },
                    }
                } else {
                    assert(!is_doc(annos@[i as int]));
                }
            },
            Annotation::Other => {},
        }
        i = i + 1;
    }
    proof {
        assert(annos@.skip(annos@.len() as int) =~= Seq::<Annotation>::empty());
        assert(doc_values(annos@) =~= str_views(parts@));
    }
    let j = join_lines(&parts);
    if j.as_str().is_empty() {
        Ok(None)
    } else {
        Ok(Some(j))
    }
}

} // verus!
