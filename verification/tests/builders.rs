use introspect::Error;

#[test]
fn enum_builder_with_identifier_and_documentation_succeeds() {
    let enum_ = introspect::enumeration::Builder::default()
        .identifier(String::from("Name"))
        .documentation(String::from("Documentation."))
        .try_build()
        .unwrap();

    assert_eq!(enum_.identifier(), "Name");
    assert_eq!(enum_.documentation(), Some("Documentation."));
}

#[test]
fn enum_builder_without_identifier_fails() {
    let result = introspect::enumeration::Builder::default()
        .documentation(String::from("Documentation."))
        .try_build();

    assert_eq!(result.unwrap_err(), Error::MissingIdentifier);
}

#[test]
fn enum_builder_last_identifier_wins() {
    let enum_ = introspect::enumeration::Builder::default()
        .identifier(String::from("First"))
        .identifier(String::from("Second"))
        .try_build()
        .unwrap();

    assert_eq!(enum_.identifier(), "Second");
}

#[test]
fn struct_builder_with_identifier_succeeds() {
    let struct_ = introspect::record::Builder::default()
        .identifier(String::from("Name"))
        .try_build()
        .unwrap();

    assert_eq!(struct_.identifier(), "Name");
    assert_eq!(struct_.documentation(), None);
}

#[test]
fn struct_builder_without_identifier_fails() {
    let result = introspect::record::Builder::default().try_build();

    assert_eq!(result.unwrap_err(), Error::MissingIdentifier);
}

#[test]
fn variant_builder_with_identifier_succeeds() {
    let variant = introspect::variant::Builder::default()
        .identifier(String::from("Name"))
        .documentation(String::from("Documentation."))
        .try_build()
        .unwrap();

    assert_eq!(variant.identifier(), "Name");
    assert_eq!(variant.documentation(), Some("Documentation."));
}

#[test]
fn variant_builder_without_identifier_fails() {
    let result = introspect::variant::Builder::default()
        .documentation(String::from("Documentation."))
        .try_build();

    assert_eq!(result.unwrap_err(), Error::MissingIdentifier);
}

#[test]
fn field_builder_with_nothing_set_succeeds() {
    let field = introspect::field::Builder::default().build();

    assert_eq!(field.identifier(), None);
    assert_eq!(field.documentation(), None);
}

#[test]
fn field_builder_keeps_what_was_set() {
    let field = introspect::field::Builder::default()
        .identifier(String::from("Name"))
        .documentation(String::from("Documentation."))
        .build();

    assert_eq!(field.identifier(), Some("Name"));
    assert_eq!(field.documentation(), Some("Documentation."));
}

#[test]
fn error_messages() {
    assert_eq!(
        Error::UnsupportedExpression.message(),
        "unsupported doc attribute expression"
    );
    assert_eq!(
        Error::UnsupportedExpressionLiteral.message(),
        "unsupported doc attribute literal"
    );
    assert_eq!(Error::MissingIdentifier.message(), "missing identifier");
    assert_eq!(
        Error::UnsupportedConstructKind.message(),
        "Introspect can only be derived for `enum`s and `struct`s"
    );
}
