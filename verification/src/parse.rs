//! The mathematical inverse of the construction-expression renderers, and
//! the round-trip law: parsing a rendered expression recovers exactly the
//! value it was rendered from.
//!
//! The parse functions are specification-level only; nothing executes them.
//! They define what "re-parsed and evaluated" means for a rendered
//! expression, by structural recursion over the expression grammar the
//! renderers emit.

use vstd::prelude::*;

use crate::entity::EntityModel;
use crate::entity::entity_render;
use crate::enumeration::EnumModel;
use crate::enumeration::enum_render;
use crate::expr::opt_plain;
use crate::expr::opt_raw;
use crate::expr::plain_lit;
use crate::expr::raw_lit;
use crate::field::FieldModel;
use crate::field::field_render;
use crate::member::MemberModel;
use crate::member::member_render;
use crate::record::StructModel;
use crate::record::struct_render;
use crate::variant::VariantModel;
use crate::variant::variant_render;

verus! {

/// Whether `s` can stand inside a plain quoted literal and be read back
/// unchanged: it holds no quote and no backslash.
pub open spec fn plain_safe(s: Seq<char>) -> bool {
    forall|i: int| 0 <= i < s.len() ==> s[i] != '"' && s[i] != '\\'
}

/// Whether `s` can stand inside a raw string literal and be read back
/// unchanged: it holds no `"#` pair.
pub open spec fn raw_safe(s: Seq<char>) -> bool {
    forall|i: int| 0 <= i < s.len() - 1 ==> !(#[trigger] s[i] == '"' && s[i + 1] == '#')
}

/// Whether every present part of `o` is [`plain_safe`].
pub open spec fn opt_plain_safe(o: Option<Seq<char>>) -> bool {
    match o {
        Some(s) => plain_safe(s),
        None => true,
    }
}

/// Whether every present part of `o` is [`raw_safe`].
pub open spec fn opt_raw_safe(o: Option<Seq<char>>) -> bool {
    match o {
        Some(s) => raw_safe(s),
        None => true,
    }
}

/// Whether `p` is a prefix of `s`.
pub open spec fn is_prefix(p: Seq<char>, s: Seq<char>) -> bool {
    p.len() <= s.len() && s.take(p.len() as int) == p
}

/// `s` with the prefix `p` removed, when `p` is a prefix.
pub open spec fn strip_prefix(s: Seq<char>, p: Seq<char>) -> Option<Seq<char>> {
    if is_prefix(p, s) {
        Some(s.skip(p.len() as int))
    } else {
        None
    }
}

/// Splits `s` at its first quote character: the text before it, and the
/// text after it.
pub open spec fn take_quoted(s: Seq<char>) -> Option<(Seq<char>, Seq<char>)>
    decreases s.len(),
{
    if s.len() == 0 {
        None
    } else if s[0] == '"' {
        Some((Seq::empty(), s.skip(1)))
    } else {
        match take_quoted(s.skip(1)) {
            Some(pr) => Some((seq![s[0]] + pr.0, pr.1)),
            None => None,
        }
    }
}

/// Splits `s` at its first `"#` pair: the text before it, and the text
/// after it.
pub open spec fn take_raw(s: Seq<char>) -> Option<(Seq<char>, Seq<char>)>
    decreases s.len(),
{
    if s.len() < 2 {
        None
    } else if s[0] == '"' && s[1] == '#' {
        Some((Seq::empty(), s.skip(2)))
    } else {
        match take_raw(s.skip(1)) {
            Some(pr) => Some((seq![s[0]] + pr.0, pr.1)),
            None => None,
        }
    }
}

/// Reads a plain quoted literal with its `.into()` conversion off the front
/// of `s`: the literal's text, and the rest of `s`.
pub open spec fn parse_plain_lit(s: Seq<char>) -> Option<(Seq<char>, Seq<char>)> {
    match strip_prefix(s, "\""@) {
        Some(r1) => match take_quoted(r1) {
            Some(pr) => match strip_prefix(pr.1, ".into()"@) {
                Some(r2) => Some((pr.0, r2)),
                None => None,
            },
            None => None,
        },
        None => None,
    }
}

/// Reads a raw string literal with its `.into()` conversion off the front
/// of `s`: the literal's text, and the rest of `s`.
pub open spec fn parse_raw_lit(s: Seq<char>) -> Option<(Seq<char>, Seq<char>)> {
    match strip_prefix(s, "r#\""@) {
        Some(r1) => match take_raw(r1) {
            Some(pr) => match strip_prefix(pr.1, ".into()"@) {
                Some(r2) => Some((pr.0, r2)),
                None => None,
            },
            None => None,
        },
        None => None,
    }
}

/// Reads an optional value rendered with plain quoted literals off the
/// front of `s`.
pub open spec fn parse_opt_plain(s: Seq<char>) -> Option<(Option<Seq<char>>, Seq<char>)> {
    match strip_prefix(s, "None"@) {
        Some(r) => Some((None, r)),
        None => match strip_prefix(s, "Some("@) {
            Some(r1) => match parse_plain_lit(r1) {
                Some(pr) => match strip_prefix(pr.1, ")"@) {
                    Some(r2) => Some((Some(pr.0), r2)),
                    None => None,
                },
                None => None,
            },
            None => None,
        },
    }
}

/// Reads an optional value rendered with raw string literals off the front
/// of `s`.
pub open spec fn parse_opt_raw(s: Seq<char>) -> Option<(Option<Seq<char>>, Seq<char>)> {
    match strip_prefix(s, "None"@) {
        Some(r) => Some((None, r)),
        None => match strip_prefix(s, "Some("@) {
            Some(r1) => match parse_raw_lit(r1) {
                Some(pr) => match strip_prefix(pr.1, ")"@) {
                    Some(r2) => Some((Some(pr.0), r2)),
                    None => None,
                },
                None => None,
            },
            None => None,
        },
    }
}

/// Reads an enumeration-entity construction expression off the front of
/// `s`.
pub open spec fn parse_enum(s: Seq<char>) -> Option<(EnumModel, Seq<char>)> {
    match strip_prefix(s, "::introspect::Enum::new("@) {
        Some(r1) => match parse_plain_lit(r1) {
            Some(id) => match strip_prefix(id.1, ", "@) {
                Some(r2) => match parse_opt_plain(r2) {
                    Some(doc) => match strip_prefix(doc.1, ")"@) {
                        Some(r3) => Some(
                            (EnumModel { identifier: id.0, documentation: doc.0 }, r3),
                        ),
                        None => None,
                    },
                    None => None,
                },
                None => None,
            },
            None => None,
        },
        None => None,
    }
}

/// Reads an aggregate-entity construction expression off the front of `s`.
pub open spec fn parse_struct(s: Seq<char>) -> Option<(StructModel, Seq<char>)> {
    match strip_prefix(s, "::introspect::Struct::new("@) {
        Some(r1) => match parse_plain_lit(r1) {
            Some(id) => match strip_prefix(id.1, ", "@) {
                Some(r2) => match parse_opt_plain(r2) {
                    Some(doc) => match strip_prefix(doc.1, ")"@) {
                        Some(r3) => Some(
                            (StructModel { identifier: id.0, documentation: doc.0 }, r3),
                        ),
                        None => None,
                    },
                    None => None,
                },
                None => None,
            },
            None => None,
        },
        None => None,
    }
}

/// Reads an enumeration-case construction expression off the front of `s`.
pub open spec fn parse_variant(s: Seq<char>) -> Option<(VariantModel, Seq<char>)> {
    match strip_prefix(s, "::introspect::r#enum::Variant::new("@) {
        Some(r1) => match parse_raw_lit(r1) {
            Some(id) => match strip_prefix(id.1, ", "@) {
                Some(r2) => match parse_opt_raw(r2) {
                    Some(doc) => match strip_prefix(doc.1, ")"@) {
                        Some(r3) => Some(
                            (VariantModel { identifier: id.0, documentation: doc.0 }, r3),
                        ),
                        None => None,
                    },
                    None => None,
                },
                None => None,
            },
            None => None,
        },
        None => None,
    }
}

/// Reads an aggregate-member construction expression off the front of `s`.
pub open spec fn parse_field(s: Seq<char>) -> Option<(FieldModel, Seq<char>)> {
    match strip_prefix(s, "::introspect::r#struct::Field::new("@) {
        Some(r1) => match parse_opt_plain(r1) {
            Some(id) => match strip_prefix(id.1, ", "@) {
                Some(r2) => match parse_opt_plain(r2) {
                    Some(doc) => match strip_prefix(doc.1, ")"@) {
                        Some(r3) => Some(
                            (FieldModel { identifier: id.0, documentation: doc.0 }, r3),
                        ),
                        None => None,
                    },
                    None => None,
                },
                None => None,
            },
            None => None,
        },
        None => None,
    }
}

/// Reads a tagged entity construction expression off the front of `s`.
pub open spec fn parse_entity(s: Seq<char>) -> Option<(EntityModel, Seq<char>)> {
    match strip_prefix(s, "::introspect::Entity::"@) {
        Some(r0) => match strip_prefix(r0, "Enum("@) {
            Some(r1) => match parse_enum(r1) {
                Some(inner) => match strip_prefix(inner.1, ")"@) {
                    Some(r2) => Some((EntityModel::Enum(inner.0), r2)),
                    None => None,
                },
                None => None,
            },
            None => match strip_prefix(r0, "Struct("@) {
                Some(r1) => match parse_struct(r1) {
                    Some(inner) => match strip_prefix(inner.1, ")"@) {
                        Some(r2) => Some((EntityModel::Struct(inner.0), r2)),
                        None => None,
                    },
                    None => None,
                },
                None => None,
            },
        },
        None => None,
    }
}

/// Reads a tagged member construction expression off the front of `s`.
pub open spec fn parse_member(s: Seq<char>) -> Option<(MemberModel, Seq<char>)> {
    match strip_prefix(s, "::introspect::Member::"@) {
        Some(r0) => match strip_prefix(r0, "Field("@) {
            Some(r1) => match parse_field(r1) {
                Some(inner) => match strip_prefix(inner.1, ")"@) {
                    Some(r2) => Some((MemberModel::Field(inner.0), r2)),
                    None => None,
                },
                None => None,
            },
            None => match strip_prefix(r0, "Variant("@) {
                Some(r1) => match parse_variant(r1) {
                    Some(inner) => match strip_prefix(inner.1, ")"@) {
                        Some(r2) => Some((MemberModel::Variant(inner.0), r2)),
                        None => None,
                    },
                    None => None,
                },
                None => None,
            },
        },
        None => None,
    }
}

proof fn lemma_strip_prefix(p: Seq<char>, rest: Seq<char>)
    ensures
        strip_prefix(p + rest, p) == Some(rest),
{
    let s = p + rest;
    assert(s.take(p.len() as int) =~= p);
    assert(s.skip(p.len() as int) =~= rest);
}

proof fn lemma_strip_prefix_ne(s: Seq<char>, p: Seq<char>)
    requires
        p.len() > 0,
        s.len() == 0 || s[0] != p[0],
    ensures
        strip_prefix(s, p) == None::<Seq<char>>,
{
    if is_prefix(p, s) {
        assert(s.take(p.len() as int)[0] == s[0]);
    }
}

proof fn lemma_take_quoted(v: Seq<char>, rest: Seq<char>)
    requires
        forall|i: int| 0 <= i < v.len() ==> v[i] != '"',
    ensures
        take_quoted(v + seq!['"'] + rest) == Some((v, rest)),
    decreases v.len(),
{
    let s = v + seq!['"'] + rest;
    if v.len() == 0 {
        assert(s[0] == '"');
        assert(s.skip(1) =~= rest);
        assert(take_quoted(s) == Some((Seq::<char>::empty(), rest)));
        assert(Seq::<char>::empty() =~= v);
    } else {
        assert(s[0] == v[0]);
        assert(s[0] != '"');
        let t = v.skip(1);
        assert(s.skip(1) =~= t + seq!['"'] + rest);
        lemma_take_quoted(t, rest);
        assert(take_quoted(s.skip(1)) == Some((t, rest)));
        assert(seq![s[0]] + t =~= v);
    }
}

proof fn lemma_take_raw(v: Seq<char>, rest: Seq<char>)
    requires
        raw_safe(v),
    ensures
        take_raw(v + seq!['"', '#'] + rest) == Some((v, rest)),
    decreases v.len(),
{
    let s = v + seq!['"', '#'] + rest;
    assert(s.len() >= 2);
    if v.len() == 0 {
        assert(s[0] == '"' && s[1] == '#');
        assert(s.skip(2) =~= rest);
        assert(Seq::<char>::empty() =~= v);
    } else {
        assert(s[0] == v[0]);
        if v.len() == 1 {
            assert(s[1] == '"');
        } else {
            assert(s[1] == v[1]);
            assert(!(v[0] == '"' && v[1] == '#'));
        }
        assert(!(s[0] == '"' && s[1] == '#'));
        let t = v.skip(1);
        assert forall|i: int| 0 <= i < t.len() - 1 implies !(#[trigger] t[i] == '"' && t[i + 1]
            == '#') by {
            assert(t[i] == v[i + 1] && t[i + 1] == v[i + 2]);
        }
        assert(s.skip(1) =~= t + seq!['"', '#'] + rest);
        lemma_take_raw(t, rest);
        assert(take_raw(s.skip(1)) == Some((t, rest)));
        assert(seq![s[0]] + t =~= v);
    }
}

proof fn lemma_parse_plain_lit(v: Seq<char>, rest: Seq<char>)
    requires
        plain_safe(v),
    ensures
        parse_plain_lit(plain_lit(v) + rest) == Some((v, rest)),
{
    reveal_strlit("\"");
    reveal_strlit("\".into()");
    reveal_strlit(".into()");
    let s = plain_lit(v) + rest;
    let after_quote = v + seq!['"'] + (".into()"@ + rest);
    assert("\""@ =~= seq!['"']);
    assert(s =~= "\""@ + after_quote);
    lemma_strip_prefix("\""@, after_quote);
    assert(strip_prefix(s, "\""@) == Some(after_quote));
    lemma_take_quoted(v, ".into()"@ + rest);
    lemma_strip_prefix(".into()"@, rest);
}

proof fn lemma_parse_raw_lit(v: Seq<char>, rest: Seq<char>)
    requires
        raw_safe(v),
    ensures
        parse_raw_lit(raw_lit(v) + rest) == Some((v, rest)),
{
    reveal_strlit("r#\"");
    reveal_strlit("\"#.into()");
    reveal_strlit(".into()");
    let s = raw_lit(v) + rest;
    let after_open = v + seq!['"', '#'] + (".into()"@ + rest);
    assert(s =~= "r#\""@ + after_open);
    lemma_strip_prefix("r#\""@, after_open);
    assert(strip_prefix(s, "r#\""@) == Some(after_open));
    lemma_take_raw(v, ".into()"@ + rest);
    lemma_strip_prefix(".into()"@, rest);
}

proof fn lemma_parse_opt_plain(o: Option<Seq<char>>, rest: Seq<char>)
    requires
        opt_plain_safe(o),
    ensures
        parse_opt_plain(opt_plain(o) + rest) == Some((o, rest)),
{
    reveal_strlit("None");
    reveal_strlit("Some(");
    reveal_strlit(")");
    let s = opt_plain(o) + rest;
    match o {
        None => {
            assert(s =~= "None"@ + rest);
            lemma_strip_prefix("None"@, rest);
        },
        Some(d) => {
            let inner = plain_lit(d) + (")"@ + rest);
            assert(s[0] == 'S');
            lemma_strip_prefix_ne(s, "None"@);
            assert(s =~= "Some("@ + inner);
            lemma_strip_prefix("Some("@, inner);
            lemma_parse_plain_lit(d, ")"@ + rest);
            lemma_strip_prefix(")"@, rest);
        },
    }
}

proof fn lemma_parse_opt_raw(o: Option<Seq<char>>, rest: Seq<char>)
    requires
        opt_raw_safe(o),
    ensures
        parse_opt_raw(opt_raw(o) + rest) == Some((o, rest)),
{
    reveal_strlit("None");
    reveal_strlit("Some(");
    reveal_strlit(")");
    let s = opt_raw(o) + rest;
    match o {
        None => {
            assert(s =~= "None"@ + rest);
            lemma_strip_prefix("None"@, rest);
        },
        Some(d) => {
            let inner = raw_lit(d) + (")"@ + rest);
            assert(s[0] == 'S');
            lemma_strip_prefix_ne(s, "None"@);
            assert(s =~= "Some("@ + inner);
            lemma_strip_prefix("Some("@, inner);
            lemma_parse_raw_lit(d, ")"@ + rest);
            lemma_strip_prefix(")"@, rest);
        },
    }
}

/// Whether an enumeration entity renders to a re-parseable expression: its
/// texts fit inside plain quoted literals.
pub open spec fn enum_renderable(m: EnumModel) -> bool {
    plain_safe(m.identifier) && opt_plain_safe(m.documentation)
}

/// Whether an aggregate entity renders to a re-parseable expression: its
/// texts fit inside plain quoted literals.
pub open spec fn struct_renderable(m: StructModel) -> bool {
    plain_safe(m.identifier) && opt_plain_safe(m.documentation)
}

/// Whether an enumeration case renders to a re-parseable expression: its
/// texts fit inside raw string literals.
pub open spec fn variant_renderable(m: VariantModel) -> bool {
    raw_safe(m.identifier) && opt_raw_safe(m.documentation)
}

/// Whether an aggregate member renders to a re-parseable expression: its
/// texts fit inside plain quoted literals.
pub open spec fn field_renderable(m: FieldModel) -> bool {
    opt_plain_safe(m.identifier) && opt_plain_safe(m.documentation)
}

/// Whether an entity's active case renders to a re-parseable expression.
pub open spec fn entity_renderable(m: EntityModel) -> bool {
    match m {
        EntityModel::Enum(e) => enum_renderable(e),
        EntityModel::Struct(s) => struct_renderable(s),
    }
}

/// Whether a member's active case renders to a re-parseable expression.
pub open spec fn member_renderable(m: MemberModel) -> bool {
    match m {
        MemberModel::Field(f) => field_renderable(f),
        MemberModel::Variant(v) => variant_renderable(v),
    }
}

proof fn lemma_parse_enum(m: EnumModel, rest: Seq<char>)
    requires
        enum_renderable(m),
    ensures
        parse_enum(enum_render(m) + rest) == Some((m, rest)),
{
    let s = enum_render(m) + rest;
    let r1 = plain_lit(m.identifier) + (", "@ + (opt_plain(m.documentation) + (")"@ + rest)));
    assert(s =~= "::introspect::Enum::new("@ + r1);
    lemma_strip_prefix("::introspect::Enum::new("@, r1);
    lemma_parse_plain_lit(m.identifier, ", "@ + (opt_plain(m.documentation) + (")"@ + rest)));
    lemma_strip_prefix(", "@, opt_plain(m.documentation) + (")"@ + rest));
    lemma_parse_opt_plain(m.documentation, ")"@ + rest);
    lemma_strip_prefix(")"@, rest);
}

proof fn lemma_parse_struct(m: StructModel, rest: Seq<char>)
    requires
        struct_renderable(m),
    ensures
        parse_struct(struct_render(m) + rest) == Some((m, rest)),
{
    let s = struct_render(m) + rest;
    let r1 = plain_lit(m.identifier) + (", "@ + (opt_plain(m.documentation) + (")"@ + rest)));
    assert(s =~= "::introspect::Struct::new("@ + r1);
    lemma_strip_prefix("::introspect::Struct::new("@, r1);
    lemma_parse_plain_lit(m.identifier, ", "@ + (opt_plain(m.documentation) + (")"@ + rest)));
    lemma_strip_prefix(", "@, opt_plain(m.documentation) + (")"@ + rest));
    lemma_parse_opt_plain(m.documentation, ")"@ + rest);
    lemma_strip_prefix(")"@, rest);
}

proof fn lemma_parse_variant(m: VariantModel, rest: Seq<char>)
    requires
        variant_renderable(m),
    ensures
        parse_variant(variant_render(m) + rest) == Some((m, rest)),
{
    let s = variant_render(m) + rest;
    let r1 = raw_lit(m.identifier) + (", "@ + (opt_raw(m.documentation) + (")"@ + rest)));
    assert(s =~= "::introspect::r#enum::Variant::new("@ + r1);
    lemma_strip_prefix("::introspect::r#enum::Variant::new("@, r1);
    lemma_parse_raw_lit(m.identifier, ", "@ + (opt_raw(m.documentation) + (")"@ + rest)));
    lemma_strip_prefix(", "@, opt_raw(m.documentation) + (")"@ + rest));
    lemma_parse_opt_raw(m.documentation, ")"@ + rest);
    lemma_strip_prefix(")"@, rest);
}

proof fn lemma_parse_field(m: FieldModel, rest: Seq<char>)
    requires
        field_renderable(m),
    ensures
        parse_field(field_render(m) + rest) == Some((m, rest)),
{
    let s = field_render(m) + rest;
    let r1 = opt_plain(m.identifier) + (", "@ + (opt_plain(m.documentation) + (")"@ + rest)));
    assert(s =~= "::introspect::r#struct::Field::new("@ + r1);
    lemma_strip_prefix("::introspect::r#struct::Field::new("@, r1);
    lemma_parse_opt_plain(m.identifier, ", "@ + (opt_plain(m.documentation) + (")"@ + rest)));
    lemma_strip_prefix(", "@, opt_plain(m.documentation) + (")"@ + rest));
    lemma_parse_opt_plain(m.documentation, ")"@ + rest);
    lemma_strip_prefix(")"@, rest);
}

proof fn lemma_parse_entity(m: EntityModel, rest: Seq<char>)
    requires
        entity_renderable(m),
    ensures
        parse_entity(entity_render(m) + rest) == Some((m, rest)),
{
    reveal_strlit("::introspect::Entity::");
    reveal_strlit("::introspect::Entity::Enum(");
    reveal_strlit("::introspect::Entity::Struct(");
    reveal_strlit("Enum(");
    reveal_strlit("Struct(");
    let s = entity_render(m) + rest;
    match m {
        EntityModel::Enum(e) => {
            let r0 = "Enum("@ + (enum_render(e) + (")"@ + rest));
            assert("::introspect::Entity::Enum("@ =~= "::introspect::Entity::"@ + "Enum("@);
            assert(s =~= "::introspect::Entity::"@ + r0);
            lemma_strip_prefix("::introspect::Entity::"@, r0);
            lemma_strip_prefix("Enum("@, enum_render(e) + (")"@ + rest));
            lemma_parse_enum(e, ")"@ + rest);
            lemma_strip_prefix(")"@, rest);
        },
        EntityModel::Struct(st) => {
            let r0 = "Struct("@ + (struct_render(st) + (")"@ + rest));
            assert("::introspect::Entity::Struct("@ =~= "::introspect::Entity::"@ + "Struct("@);
            assert(s =~= "::introspect::Entity::"@ + r0);
            lemma_strip_prefix("::introspect::Entity::"@, r0);
            assert(r0[0] == 'S');
            lemma_strip_prefix_ne(r0, "Enum("@);
            lemma_strip_prefix("Struct("@, struct_render(st) + (")"@ + rest));
            lemma_parse_struct(st, ")"@ + rest);
            lemma_strip_prefix(")"@, rest);
        },
    }
}

proof fn lemma_parse_member(m: MemberModel, rest: Seq<char>)
    requires
        member_renderable(m),
    ensures
        parse_member(member_render(m) + rest) == Some((m, rest)),
{
    reveal_strlit("::introspect::Member::");
    reveal_strlit("::introspect::Member::Field(");
    reveal_strlit("::introspect::Member::Variant(");
    reveal_strlit("Field(");
    reveal_strlit("Variant(");
    let s = member_render(m) + rest;
    match m {
        MemberModel::Field(f) => {
            let r0 = "Field("@ + (field_render(f) + (")"@ + rest));
            assert("::introspect::Member::Field("@ =~= "::introspect::Member::"@ + "Field("@);
            assert(s =~= "::introspect::Member::"@ + r0);
            lemma_strip_prefix("::introspect::Member::"@, r0);
            lemma_strip_prefix("Field("@, field_render(f) + (")"@ + rest));
            lemma_parse_field(f, ")"@ + rest);
            lemma_strip_prefix(")"@, rest);
        },
        MemberModel::Variant(v) => {
            let r0 = "Variant("@ + (variant_render(v) + (")"@ + rest));
            assert("::introspect::Member::Variant("@ =~= "::introspect::Member::"@ + "Variant("@);
            assert(s =~= "::introspect::Member::"@ + r0);
            lemma_strip_prefix("::introspect::Member::"@, r0);
            assert(r0[0] == 'V');
            lemma_strip_prefix_ne(r0, "Field("@);
            lemma_strip_prefix("Variant("@, variant_render(v) + (")"@ + rest));
            lemma_parse_variant(v, ")"@ + rest);
            lemma_strip_prefix(")"@, rest);
        },
    }
}

/// Round-trip law for enumeration entities: parsing the construction
/// expression rendered from `m` recovers exactly `m`, consuming the whole
/// text, whenever `m`'s texts fit inside plain quoted literals.
pub proof fn enum_round_trip(m: EnumModel)
    requires
        enum_renderable(m),
    ensures
        parse_enum(enum_render(m)) == Some((m, Seq::<char>::empty())),
{
    lemma_parse_enum(m, Seq::empty());
    assert(enum_render(m) + Seq::<char>::empty() =~= enum_render(m));
}

/// Round-trip law for aggregate entities: parsing the construction
/// expression rendered from `m` recovers exactly `m`, consuming the whole
/// text, whenever `m`'s texts fit inside plain quoted literals.
pub proof fn struct_round_trip(m: StructModel)
    requires
        struct_renderable(m),
    ensures
        parse_struct(struct_render(m)) == Some((m, Seq::<char>::empty())),
{
    lemma_parse_struct(m, Seq::empty());
    assert(struct_render(m) + Seq::<char>::empty() =~= struct_render(m));
}

/// Round-trip law for enumeration cases: parsing the construction
/// expression rendered from `m` recovers exactly `m`, consuming the whole
/// text, whenever `m`'s texts fit inside raw string literals.
pub proof fn variant_round_trip(m: VariantModel)
    requires
        variant_renderable(m),
    ensures
        parse_variant(variant_render(m)) == Some((m, Seq::<char>::empty())),
{
    lemma_parse_variant(m, Seq::empty());
    assert(variant_render(m) + Seq::<char>::empty() =~= variant_render(m));
}

/// Round-trip law for aggregate members: parsing the construction
/// expression rendered from `m` recovers exactly `m`, consuming the whole
/// text, whenever `m`'s texts fit inside plain quoted literals.
pub proof fn field_round_trip(m: FieldModel)
    requires
        field_renderable(m),
    ensures
        parse_field(field_render(m)) == Some((m, Seq::<char>::empty())),
{
    lemma_parse_field(m, Seq::empty());
    assert(field_render(m) + Seq::<char>::empty() =~= field_render(m));
}

/// Round-trip law for entities: parsing the tagged construction expression
/// rendered from `m` recovers exactly `m`, with the tag deciding the active
/// case, whenever the wrapped value is renderable.
pub proof fn entity_round_trip(m: EntityModel)
    requires
        entity_renderable(m),
    ensures
        parse_entity(entity_render(m)) == Some((m, Seq::<char>::empty())),
{
    lemma_parse_entity(m, Seq::empty());
    assert(entity_render(m) + Seq::<char>::empty() =~= entity_render(m));
}

/// Round-trip law for members: parsing the tagged construction expression
/// rendered from `m` recovers exactly `m`, with the tag deciding the active
/// case, whenever the wrapped value is renderable.
pub proof fn member_round_trip(m: MemberModel)
    requires
        member_renderable(m),
    ensures
        parse_member(member_render(m)) == Some((m, Seq::<char>::empty())),
{
    lemma_parse_member(m, Seq::empty());
    assert(member_render(m) + Seq::<char>::empty() =~= member_render(m));
}

} // verus!
