use tracing_fn::error::GenerationError;
use tracing_fn::generator::expand;
use tracing_fn::options::AnnotationOptions;
use tracing_fn::signature::extract_signature;
use tracing_fn::tracing_fn;

const ADD: &str = "fn add(a: i32, b: i32) -> i32 { a + b }";

#[test]
fn tracing_fn_is_parse_extract_expand() {
    for args in ["", "level = \"info\"", "skip = \"b\"", "force = true", "level = \"debug\", skip = \"a\", force = true"] {
        let expected = expand(&AnnotationOptions::parse(args), &extract_signature(ADD).unwrap());
        assert_eq!(tracing_fn(args, ADD), expected);
        assert!(expected.is_ok());
    }
}

#[test]
fn default_annotation_is_gated_on_the_build() {
    let text = tracing_fn("", ADD).unwrap();
    assert_eq!(text.matches("#[cfg(debug_assertions)]").count(), 1);
    assert_eq!(text.matches("#[cfg(not(debug_assertions))]").count(), 1);
    assert!(text.contains("tracing::Level::TRACE"));
    assert!(text.contains("format!(\"{}={:?}\", \"a\", a), format!(\"{}={:?}\", \"b\", b)"));
    assert!(text.ends_with("#[cfg(not(debug_assertions))] { a + b } }"));
}

#[test]
fn forced_annotation_is_not_gated() {
    let text = tracing_fn("force = true, level = \"info\"", ADD).unwrap();
    assert!(!text.contains("cfg"));
    assert!(text.contains("tracing::Level::INFO"));
    assert!(text.contains("(move || { a + b })()"));
}

#[test]
fn skipped_parameter_is_never_formatted() {
    let text = tracing_fn(
        "level = \"debug\", skip = \"password\"",
        "fn login(username: &str, password: &str) -> bool { true }",
    )
    .unwrap();
    assert!(text.contains("format!(\"{}={:?}\", \"username\", username)"));
    assert!(text.contains("format!(\"{}={}\", \"password\", \"***\")"));
    assert!(!text.contains("\"password\", password"));
}

#[test]
fn unrecognized_level_is_an_error() {
    assert_eq!(
        tracing_fn("level = \"verbose\"", ADD),
        Err(GenerationError::UndefinedSeverity { level: "verbose".to_string() })
    );
}

#[test]
fn an_invalid_definition_is_reported_before_the_level() {
    assert!(matches!(
        tracing_fn("level = \"verbose\"", "struct S;"),
        Err(GenerationError::InvalidDefinition { .. })
    ));
    assert!(matches!(tracing_fn("", ""), Err(GenerationError::InvalidDefinition { .. })));
}
