use introspect::Error;
use introspect::docs::extract_documentation;
use introspect::node::Annotation;
use introspect::node::AnnotationValue;

fn doc(text: &str) -> Annotation {
    Annotation::NameValue(
        String::from("doc"),
        AnnotationValue::StringLiteral(String::from(text)),
    )
}

#[test]
fn no_annotations_gives_absent_documentation() {
    let annos: Vec<Annotation> = Vec::new();

    assert_eq!(extract_documentation(&annos).unwrap(), None);
}

#[test]
fn lines_are_trimmed_and_joined_in_source_order() {
    let annos = vec![doc(" First line. "), doc("\tSecond line.\t"), doc("Third.")];

    assert_eq!(
        extract_documentation(&annos).unwrap(),
        Some(String::from("First line.\nSecond line.\nThird."))
    );
}

#[test]
fn whitespace_only_documentation_collapses_to_absent() {
    let annos = vec![doc("   \t  ")];

    assert_eq!(extract_documentation(&annos).unwrap(), None);
}

#[test]
fn other_annotations_are_ignored() {
    let annos = vec![
        Annotation::Other,
        doc("Kept."),
        Annotation::NameValue(
            String::from("not_doc"),
            AnnotationValue::StringLiteral(String::from("Dropped.")),
        ),
        Annotation::NameValue(String::from("also_not_doc"), AnnotationValue::NotLiteral),
    ];

    assert_eq!(
        extract_documentation(&annos).unwrap(),
        Some(String::from("Kept."))
    );
}

#[test]
fn non_string_literal_marker_value_fails() {
    let annos = vec![
        doc("Fine."),
        Annotation::NameValue(String::from("doc"), AnnotationValue::OtherLiteral),
    ];

    assert_eq!(
        extract_documentation(&annos).unwrap_err(),
        Error::UnsupportedExpressionLiteral
    );
}

#[test]
fn non_literal_marker_value_fails() {
    let annos = vec![Annotation::NameValue(
        String::from("doc"),
        AnnotationValue::NotLiteral,
    )];

    assert_eq!(
        extract_documentation(&annos).unwrap_err(),
        Error::UnsupportedExpression
    );
}

#[test]
fn first_error_in_source_order_wins() {
    let annos = vec![
        Annotation::NameValue(String::from("doc"), AnnotationValue::NotLiteral),
        Annotation::NameValue(String::from("doc"), AnnotationValue::OtherLiteral),
    ];

    assert_eq!(
        extract_documentation(&annos).unwrap_err(),
        Error::UnsupportedExpression
    );
}

#[test]
fn empty_lines_between_content_are_kept() {
    let annos = vec![doc("First."), doc(""), doc("Last.")];

    assert_eq!(
        extract_documentation(&annos).unwrap(),
        Some(String::from("First.\n\nLast."))
    );
}
