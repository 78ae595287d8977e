//! The code-generation driver: for one annotated construct, builds the
//! entity value and the ordered list of member values, renders them to
//! construction expressions, and splices them into the fixed template that
//! implements the introspection capability for the construct.

use vstd::prelude::*;

use crate::docs::doc_error;
use crate::entity::Entity;
use crate::entity::EntityModel;
use crate::entity::entity_render;
use crate::enumeration::Enum;
use crate::enumeration::enum_model;
use crate::error::Error;
use crate::field::Field;
use crate::field::field_model;
use crate::member::Member;
use crate::member::MemberModel;
use crate::member::member_render;
use crate::node::EnumerationNode;
use crate::node::FieldNode;
use crate::node::ItemNode;
use crate::node::RecordNode;
use crate::node::VariantNode;
use crate::record::Struct;
use crate::record::struct_model;
use crate::text::sep_joined;
use crate::text::str_views;
use crate::text::join_with;
use crate::variant::Variant;
use crate::variant::variant_model;

verus! {

/// The first documentation-extraction error among a list of case nodes, in
/// source order.
pub open spec fn variants_error(vs: Seq<VariantNode>) -> Option<Error>
    decreases vs.len(),
{
    if vs.len() == 0 {
        None
    } else {
        match doc_error(vs[0].annotations@) {
            Some(e) => Some(e),
            None => variants_error(vs.skip(1)),
        }
    }
}

/// The first documentation-extraction error among a list of member nodes,
/// in source order.
pub open spec fn fields_error(fs: Seq<FieldNode>) -> Option<Error>
    decreases fs.len(),
{
    if fs.len() == 0 {
        None
    } else {
        match doc_error(fs[0].annotations@) {
            Some(e) => Some(e),
            None => fields_error(fs.skip(1)),
        }
    }
}

/// The first error generation for an enumeration construct runs into: the
/// construct's own documentation first, then each case in source order.
pub open spec fn enum_gen_error(node: EnumerationNode) -> Option<Error> {
    match doc_error(node.annotations@) {
        Some(e) => Some(e),
        None => variants_error(node.variants@),
    }
}

/// The first error generation for an aggregate construct runs into: the
/// construct's own documentation first, then each member in source order.
pub open spec fn record_gen_error(node: RecordNode) -> Option<Error> {
    match doc_error(node.annotations@) {
        Some(e) => Some(e),
        None => fields_error(node.fields@),
    }
}

/// The member construction expressions of an enumeration's cases, in source
/// order.
pub open spec fn variant_renders(vs: Seq<VariantNode>) -> Seq<Seq<char>> {
    Seq::new(vs.len(), |i: int| member_render(MemberModel::Variant(variant_model(vs[i]))))
}

/// The member construction expressions of an aggregate's members, in source
/// order.
pub open spec fn field_renders(fs: Seq<FieldNode>) -> Seq<Seq<char>> {
    Seq::new(fs.len(), |i: int| member_render(MemberModel::Field(field_model(fs[i]))))
}

/// The fixed generated-code template with the construct's identifier, the
/// entity construction expression, and the comma-separated member
/// construction expressions spliced in.
pub open spec fn generated_code(
    ident: Seq<char>,
    entity_expr: Seq<char>,
    member_exprs: Seq<Seq<char>>,
) -> Seq<char> {
    "#[automatically_derived]\nimpl ::introspect::IntrospectedEntity for "@ + ident
        + " {\n    fn introspected_entity() -> ::introspect::Entity {\n        "@ + entity_expr
        + "\n    }\n}\n\n#[automatically_derived]\nimpl ::introspect::IntrospectedMembers for "@
        + ident
        + " {\n    fn introspected_members() -> Vec<::introspect::Member> {\n        vec!["@
        + sep_joined(member_exprs, ", "@)
        + "]\n    }\n}\n\n#[automatically_derived]\nimpl ::introspect::Introspected for "@ + ident
        + " {}\n"@
}

/// The text generation produces for an enumeration construct when no
/// extraction fails.
pub open spec fn generated_enum(node: EnumerationNode) -> Seq<char> {
    generated_code(
        node.identifier@,
        entity_render(EntityModel::Enum(enum_model(node))),
        variant_renders(node.variants@),
    )
}

/// The text generation produces for an aggregate construct when no
/// extraction fails.
pub open spec fn generated_record(node: RecordNode) -> Seq<char> {
    generated_code(
        node.identifier@,
        entity_render(EntityModel::Struct(struct_model(node))),
        field_renders(node.fields@),
    )
}

/// Splices the already-rendered pieces into the fixed template.
fn splice(ident: &str, entity_expr: &str, member_list: &str) -> (r: String)
    ensures
        r@ == "#[automatically_derived]\nimpl ::introspect::IntrospectedEntity for "@ + ident@
            + " {\n    fn introspected_entity() -> ::introspect::Entity {\n        "@
            + entity_expr@
            + "\n    }\n}\n\n#[automatically_derived]\nimpl ::introspect::IntrospectedMembers for "@
            + ident@
            + " {\n    fn introspected_members() -> Vec<::introspect::Member> {\n        vec!["@
            + member_list@
            + "]\n    }\n}\n\n#[automatically_derived]\nimpl ::introspect::Introspected for "@
            + ident@ + " {}\n"@,
{
    let mut out = String::new();
    out.append("#[automatically_derived]\nimpl ::introspect::IntrospectedEntity for ");
    out.append(ident);
    out.append(" {\n    fn introspected_entity() -> ::introspect::Entity {\n        ");
    out.append(entity_expr);
    out.append("\n    }\n}\n\n#[automatically_derived]\nimpl ::introspect::IntrospectedMembers for ");
    out.append(ident);
    out.append(" {\n    fn introspected_members() -> Vec<::introspect::Member> {\n        vec![");
    out.append(member_list);
    out.append("]\n    }\n}\n\n#[automatically_derived]\nimpl ::introspect::Introspected for ");
    out.append(ident);
    out.append(" {}\n");
    out
}

/// Generates the introspection implementation for one enumeration
/// construct, as [`enum_gen_error`] and [`generated_enum`] describe: the
/// first extraction failure aborts the whole generation, and on success the
/// result is the filled template.
#[verifier::rlimit(50)]
pub fn generate_enumeration(node: &EnumerationNode) -> (r: Result<String, Error>)
    ensures
        enum_gen_error(*node) matches Some(e) ==> r == Err::<String, Error>(e),
        enum_gen_error(*node) is None ==> (r matches Ok(t) && t@ == generated_enum(*node)),
{
    let enum_ = match Enum::from_node(node) {
        Ok(e) => e,
        Err(e) => {
            return Err(e);
        },
    };
    let entity = Entity::Enum(enum_);
    let entity_expr = entity.render();
    let ghost vr = variant_renders(node.variants@);
    let mut member_exprs: Vec<String> = Vec::new();
    proof {
        assert(node.variants@.skip(0) =~= node.variants@);
        assert(str_views(member_exprs@) =~= vr.take(0));
    }
    let mut i: usize = 0;
    while i < node.variants.len()
        invariant
            i <= node.variants@.len(),
            vr == variant_renders(node.variants@),
            doc_error(node.annotations@) is None,
            variants_error(node.variants@) == variants_error(node.variants@.skip(i as int)),
            str_views(member_exprs@) == vr.take(i as int),
        decreases node.variants@.len() - i,
    {
        let ghost tail = node.variants@.skip(i as int);
        proof {
            assert(tail[0] == node.variants@[i as int]);
            assert(tail.skip(1) =~= node.variants@.skip(i as int + 1));
        }
        let variant = match Variant::from_node(&node.variants[i]) {
            Ok(v) => v,
            Err(e) => {
                proof {
                    assert(doc_error(tail[0].annotations@) == Some(e));
                    assert(variants_error(tail) == Some(e));
                    assert(enum_gen_error(*node) == Some(e));
                }
                return Err(e);
            },
        };
        let member = Member::Variant(variant);
        let expr = member.render();
        proof {
            assert(str_views(member_exprs@.push(expr)) =~= str_views(member_exprs@) + seq![expr@]);
            assert(vr.take(i as int) + seq![vr[i as int]] =~= vr.take(i as int + 1));
        }
        member_exprs.push(expr);
        i = i + 1;
    }
    proof {
        assert(node.variants@.skip(node.variants@.len() as int) =~= Seq::<VariantNode>::empty());
        assert(vr.take(node.variants@.len() as int) =~= vr);
    }
    let member_list = join_with(&member_exprs, ", ");
    Ok(splice(node.identifier.as_str(), entity_expr.as_str(), member_list.as_str()))
}

/// Generates the introspection implementation for one aggregate construct,
/// as [`record_gen_error`] and [`generated_record`] describe: the first
/// extraction failure aborts the whole generation, and on success the
/// result is the filled template.
#[verifier::rlimit(50)]
pub fn generate_record(node: &RecordNode) -> (r: Result<String, Error>)
    ensures
        record_gen_error(*node) matches Some(e) ==> r == Err::<String, Error>(e),
        record_gen_error(*node) is None ==> (r matches Ok(t) && t@ == generated_record(*node)),
{
    let struct_ = match Struct::from_node(node) {
        Ok(s) => s,
        Err(e) => {
            return Err(e);
        },
    };
    let entity = Entity::Struct(struct_);
    let entity_expr = entity.render();
    let ghost fr = field_renders(node.fields@);
    let mut member_exprs: Vec<String> = Vec::new();
    proof {
        assert(node.fields@.skip(0) =~= node.fields@);
        assert(str_views(member_exprs@) =~= fr.take(0));
    }
    let mut i: usize = 0;
    while i < node.fields.len()
        invariant
            i <= node.fields@.len(),
            fr == field_renders(node.fields@),
            doc_error(node.annotations@) is None,
            fields_error(node.fields@) == fields_error(node.fields@.skip(i as int)),
            str_views(member_exprs@) == fr.take(i as int),
        decreases node.fields@.len() - i,
    {
        let ghost tail = node.fields@.skip(i as int);
        proof {
            assert(tail[0] == node.fields@[i as int]);
            assert(tail.skip(1) =~= node.fields@.skip(i as int + 1));
        }
        let field = match Field::from_node(&node.fields[i]) {
            Ok(f) => f,
            Err(e) => {
                proof {
                    assert(doc_error(tail[0].annotations@) == Some(e));
                    assert(fields_error(tail) == Some(e));
                    assert(record_gen_error(*node) == Some(e));
                }
                return Err(e);
            },
        };
        let member = Member::Field(field);
        let expr = member.render();
        proof {
            assert(str_views(member_exprs@.push(expr)) =~= str_views(member_exprs@) + seq![expr@]);
            assert(fr.take(i as int) + seq![fr[i as int]] =~= fr.take(i as int + 1));
        }
        member_exprs.push(expr);
        i = i + 1;
    }
    proof {
        assert(node.fields@.skip(node.fields@.len() as int) =~= Seq::<FieldNode>::empty());
        assert(fr.take(node.fields@.len() as int) =~= fr);
    }
    let member_list = join_with(&member_exprs, ", ");
    Ok(splice(node.identifier.as_str(), entity_expr.as_str(), member_list.as_str()))
}

/// Generates the introspection implementation for one annotated construct,
/// dispatching on its kind; any construct that is neither an enumeration
/// nor a record-like aggregate is rejected with a fixed diagnostic.
pub fn generate(item: &ItemNode) -> (r: Result<String, Error>)
    ensures
        *item is Other ==> r == Err::<String, Error>(Error::UnsupportedConstructKind),
        *item matches ItemNode::Enumeration(node) ==> ((enum_gen_error(node) matches Some(e) ==> r
            == Err::<String, Error>(e)) && (enum_gen_error(node) is None ==> (r matches Ok(t)
            && t@ == generated_enum(node)))),
        *item matches ItemNode::Record(node) ==> ((record_gen_error(node) matches Some(e) ==> r
            == Err::<String, Error>(e)) && (record_gen_error(node) is None ==> (r matches Ok(t)
            && t@ == generated_record(node)))),
{
    match item {
        ItemNode::Enumeration(node) => generate_enumeration(node),
        ItemNode::Record(node) => generate_record(node),
        ItemNode::Other => Err(Error::UnsupportedConstructKind),
    }
}

} // verus!
