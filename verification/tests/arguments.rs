use tracing_fn::arguments::{format_arguments, join_arguments, ArgumentDisplay};
use tracing_fn::options::AnnotationOptions;
use tracing_fn::signature::{extract_signature, Parameter};

fn parameter(name: &str) -> Parameter {
    Parameter { name: name.to_string(), ty: "T".to_string() }
}

fn shown(name: &str, value: &str) -> ArgumentDisplay {
    ArgumentDisplay { name: name.to_string(), rendered_value: value.to_string() }
}

#[test]
fn no_loggable_parameters_render_as_parentheses() {
    let options = AnnotationOptions::parse("");
    let none = format_arguments(&vec![], &options, &vec![]);
    assert!(none.is_empty());
    assert_eq!(join_arguments(&none), "()");
    let function = extract_signature("fn f((a, b): (u8, u8)) {}").unwrap();
    let shown = format_arguments(&function.parameters(), &options, &vec![]);
    assert_eq!(join_arguments(&shown), "()");
}

#[test]
fn add_two_three_renders_in_declaration_order() {
    let function = extract_signature("fn add(a: i32, b: i32) -> i32 { a + b }").unwrap();
    let options = AnnotationOptions::parse("");
    let values = vec![format!("{:?}", 2), format!("{:?}", 3)];
    let shown = format_arguments(&function.parameters(), &options, &values);
    assert_eq!(shown.len(), 2);
    assert_eq!(shown[0].name, "a");
    assert_eq!(shown[0].rendered_value, "2");
    assert_eq!(shown[1].name, "b");
    assert_eq!(shown[1].rendered_value, "3");
    assert_eq!(join_arguments(&shown), "a=2, b=3");
}

#[test]
fn skipped_password_never_appears() {
    let function =
        extract_signature("fn login(username: &str, password: &str) -> bool { true }").unwrap();
    let options = AnnotationOptions::parse("skip = \"password\"");
    let values = vec![format!("{:?}", "u"), format!("{:?}", "p")];
    let shown = format_arguments(&function.parameters(), &options, &values);
    assert_eq!(join_arguments(&shown), "username=\"u\", password=***");
    let other = vec![format!("{:?}", "u"), format!("{:?}", "hunter2")];
    assert_eq!(format_arguments(&function.parameters(), &options, &other), shown);
}

#[test]
fn a_single_argument_has_no_separator() {
    assert_eq!(join_arguments(&vec![shown("x", "21")]), "x=21");
    assert_eq!(shown("x", "21").fragment(), "x=21");
    assert_eq!(shown("secret", "***").fragment(), "secret=***");
}

#[test]
fn every_skipped_name_is_redacted_wherever_it_stands() {
    let mut options = AnnotationOptions::new();
    options.skip = vec!["b".to_string(), "d".to_string()];
    let parameters = vec![parameter("a"), parameter("b"), parameter("c"), parameter("b")];
    let values: Vec<String> = ["1", "2", "3", "4"].iter().map(|v| v.to_string()).collect();
    let result = format_arguments(&parameters, &options, &values);
    assert_eq!(result, vec![shown("a", "1"), shown("b", "***"), shown("c", "3"), shown("b", "***")]);
    assert_eq!(join_arguments(&result), "a=1, b=***, c=3, b=***");
}
