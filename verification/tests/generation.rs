use introspect::Error;
use introspect::generate::generate;
use introspect::generate::generate_enumeration;
use introspect::generate::generate_record;
use introspect::node::Annotation;
use introspect::node::AnnotationValue;
use introspect::node::EnumerationNode;
use introspect::node::FieldNode;
use introspect::node::ItemNode;
use introspect::node::RecordNode;
use introspect::node::VariantNode;

fn doc(text: &str) -> Annotation {
    Annotation::NameValue(
        String::from("doc"),
        AnnotationValue::StringLiteral(String::from(text)),
    )
}

#[test]
fn generates_the_template_for_an_enumeration() {
    let node = EnumerationNode {
        identifier: String::from("Example"),
        annotations: vec![doc(" This is documentation. ")],
        variants: vec![
            VariantNode {
                identifier: String::from("One"),
                annotations: vec![doc("First.")],
            },
            VariantNode {
                identifier: String::from("Two"),
                annotations: vec![],
            },
        ],
    };

    let expected = "#[automatically_derived]\n\
        impl ::introspect::IntrospectedEntity for Example {\n    \
        fn introspected_entity() -> ::introspect::Entity {\n        \
        ::introspect::Entity::Enum(::introspect::Enum::new(\"Example\".into(), Some(\"This is documentation.\".into())))\n    \
        }\n}\n\n\
        #[automatically_derived]\n\
        impl ::introspect::IntrospectedMembers for Example {\n    \
        fn introspected_members() -> Vec<::introspect::Member> {\n        \
        vec![::introspect::Member::Variant(::introspect::r#enum::Variant::new(r#\"One\"#.into(), Some(r#\"First.\"#.into()))), ::introspect::Member::Variant(::introspect::r#enum::Variant::new(r#\"Two\"#.into(), None))]\n    \
        }\n}\n\n\
        #[automatically_derived]\n\
        impl ::introspect::Introspected for Example {}\n";

    assert_eq!(generate_enumeration(&node).unwrap(), expected);
}

#[test]
fn generates_the_template_for_a_record() {
    let node = RecordNode {
        identifier: String::from("Example"),
        annotations: vec![],
        fields: vec![
            FieldNode {
                identifier: Some(String::from("one")),
                annotations: vec![doc("A field.")],
            },
            FieldNode {
                identifier: None,
                annotations: vec![],
            },
        ],
    };

    let expected = "#[automatically_derived]\n\
        impl ::introspect::IntrospectedEntity for Example {\n    \
        fn introspected_entity() -> ::introspect::Entity {\n        \
        ::introspect::Entity::Struct(::introspect::Struct::new(\"Example\".into(), None))\n    \
        }\n}\n\n\
        #[automatically_derived]\n\
        impl ::introspect::IntrospectedMembers for Example {\n    \
        fn introspected_members() -> Vec<::introspect::Member> {\n        \
        vec![::introspect::Member::Field(::introspect::r#struct::Field::new(Some(\"one\".into()), Some(\"A field.\".into()))), ::introspect::Member::Field(::introspect::r#struct::Field::new(None, None))]\n    \
        }\n}\n\n\
        #[automatically_derived]\n\
        impl ::introspect::Introspected for Example {}\n";

    assert_eq!(generate_record(&node).unwrap(), expected);
}

#[test]
fn generates_an_empty_member_list() {
    let node = EnumerationNode {
        identifier: String::from("Nothing"),
        annotations: vec![],
        variants: vec![],
    };

    let generated = generate_enumeration(&node).unwrap();
    assert!(generated.contains("vec![]"));
}

#[test]
fn other_construct_kinds_are_rejected() {
    assert_eq!(
        generate(&ItemNode::Other).unwrap_err(),
        Error::UnsupportedConstructKind
    );
}

#[test]
fn generate_dispatches_on_the_construct_kind() {
    let node = EnumerationNode {
        identifier: String::from("Example"),
        annotations: vec![],
        variants: vec![],
    };
    let by_kind = generate(&ItemNode::Enumeration(node.clone())).unwrap();
    assert_eq!(by_kind, generate_enumeration(&node).unwrap());
}

#[test]
fn a_bad_construct_annotation_aborts_generation() {
    let node = EnumerationNode {
        identifier: String::from("Example"),
        annotations: vec![Annotation::NameValue(
            String::from("doc"),
            AnnotationValue::OtherLiteral,
        )],
        variants: vec![],
    };

    assert_eq!(
        generate_enumeration(&node).unwrap_err(),
        Error::UnsupportedExpressionLiteral
    );
}

#[test]
fn a_bad_member_annotation_aborts_generation() {
    let node = RecordNode {
        identifier: String::from("Example"),
        annotations: vec![],
        fields: vec![
            FieldNode {
                identifier: Some(String::from("fine")),
                annotations: vec![doc("Fine.")],
            },
            FieldNode {
                identifier: Some(String::from("bad")),
                annotations: vec![Annotation::NameValue(
                    String::from("doc"),
                    AnnotationValue::NotLiteral,
                )],
            },
        ],
    };

    assert_eq!(
        generate_record(&node).unwrap_err(),
        Error::UnsupportedExpression
    );
}
