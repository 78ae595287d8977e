use introspect::Entity;
use introspect::Enum;
use introspect::Field;
use introspect::Member;
use introspect::Struct;
use introspect::Variant;

#[test]
fn an_enum_converts_to_string_correctly() {
    let member = Entity::Enum(Enum::new("Name".into(), Some("Documentation.".into())));

    assert_eq!(member.render(), "::introspect::Entity::Enum(::introspect::Enum::new(\"Name\".into(), Some(\"Documentation.\".into())))");
}

#[test]
fn a_struct_converts_to_string_correctly() {
    let member = Entity::Struct(Struct::new("Name".into(), Some("Documentation.".into())));

    assert_eq!(member.render(), "::introspect::Entity::Struct(::introspect::Struct::new(\"Name\".into(), Some(\"Documentation.\".into())))");
}

#[test]
fn variant_display_identifier_and_documentation() {
    let variant = Variant::new(String::from("Name"), Some(String::from("Documentation.")));

    assert_eq!(
        variant.render(),
        "::introspect::r#enum::Variant::new(r#\"Name\"#.into(), Some(r#\"Documentation.\"#.into()))"
    )
}

#[test]
fn variant_display_only_identifier() {
    let variant = Variant::new(String::from("Name"), None);

    assert_eq!(
        variant.render(),
        "::introspect::r#enum::Variant::new(r#\"Name\"#.into(), None)"
    )
}

#[test]
fn an_enum_variant_converts_to_string_correctly() {
    let member = Member::Variant(Variant::new("Name".into(), Some("Documentation.".into())));

    assert_eq!(member.render(), "::introspect::Member::Variant(::introspect::r#enum::Variant::new(r#\"Name\"#.into(), Some(r#\"Documentation.\"#.into())))");
}

#[test]
fn a_struct_field_converts_to_string_correctly() {
    let member = Member::Field(Field::new(
        Some("Name".into()),
        Some("Documentation.".into()),
    ));

    assert_eq!(member.render(), "::introspect::Member::Field(::introspect::r#struct::Field::new(Some(\"Name\".into()), Some(\"Documentation.\".into())))");
}

#[test]
fn field_display_identifier_and_documentation() {
    let field = Field::new(
        Some(String::from("Name")),
        Some(String::from("Documentation.")),
    );

    assert_eq!(
        field.render(),
        "::introspect::r#struct::Field::new(Some(\"Name\".into()), Some(\"Documentation.\".into()))"
    )
}

#[test]
fn field_display_only_identifier() {
    let field = Field::new(Some(String::from("Name")), None);

    assert_eq!(
        field.render(),
        "::introspect::r#struct::Field::new(Some(\"Name\".into()), None)"
    )
}

#[test]
fn display_only_documentation() {
    let field = Field::new(None, Some(String::from("Documentation.")));

    assert_eq!(
        field.render(),
        "::introspect::r#struct::Field::new(None, Some(\"Documentation.\".into()))"
    )
}

#[test]
fn display_neither() {
    let field = Field::new(None, None);

    assert_eq!(
        field.render(),
        "::introspect::r#struct::Field::new(None, None)"
    )
}

#[test]
fn enum_render_without_documentation() {
    let enum_ = Enum::new(String::from("Name"), None);

    assert_eq!(enum_.render(), "::introspect::Enum::new(\"Name\".into(), None)");
}

#[test]
fn struct_render_without_documentation() {
    let struct_ = Struct::new(String::from("Name"), None);

    assert_eq!(struct_.render(), "::introspect::Struct::new(\"Name\".into(), None)");
}

#[test]
fn getters_return_what_new_was_given() {
    let enum_ = Enum::new(String::from("Name"), Some(String::from("Documentation.")));
    assert_eq!(enum_.identifier(), "Name");
    assert_eq!(enum_.documentation(), Some("Documentation."));

    let struct_ = Struct::new(String::from("Name"), None);
    assert_eq!(struct_.identifier(), "Name");
    assert_eq!(struct_.documentation(), None);

    let variant = Variant::new(String::from("Name"), Some(String::from("Documentation.")));
    assert_eq!(variant.identifier(), "Name");
    assert_eq!(variant.documentation(), Some("Documentation."));

    let field = Field::new(None, Some(String::from("Documentation.")));
    assert_eq!(field.identifier(), None);
    assert_eq!(field.documentation(), Some("Documentation."));
}
