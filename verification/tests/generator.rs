use tracing_fn::error::GenerationError;
use tracing_fn::generator::{
    expand, generate, instrument, write_argument_expression, write_argument_expressions,
    write_expansion, write_header, write_instrumented_body, BuildProfile, GeneratedFunction,
};
use tracing_fn::level::Level;
use tracing_fn::options::AnnotationOptions;
use tracing_fn::signature::{extract_signature, FunctionDescriptor, Input};

const ADD_BODY: &str = "{ { let __tracing_fn_args: Vec<String> = vec![format!(\"{}={:?}\", \"a\", a), format!(\"{}={:?}\", \"b\", b)]; let __tracing_fn_args_str = if __tracing_fn_args.is_empty() { \"()\".to_string() } else { __tracing_fn_args.join(\", \") }; tracing::event!(tracing::Level::TRACE, \">>> [{}] #Args: {} --- {}:{}\", \"add\", __tracing_fn_args_str, file!(), line!()); } let __tracing_fn_start = std::time::Instant::now(); let __tracing_fn_result = (move || { a + b })(); let __tracing_fn_duration = __tracing_fn_start.elapsed(); tracing::event!(tracing::Level::TRACE, \"<<< [{}] #Ret: {:?}, duration: {:?}\", \"add\", __tracing_fn_result, __tracing_fn_duration); __tracing_fn_result }";

fn add() -> FunctionDescriptor {
    FunctionDescriptor {
        decorations: vec!["#[inline]".to_string(), "#[must_use]".to_string()],
        visibility: "pub".to_string(),
        signature: "fn add(a: i32, b: i32) -> i32".to_string(),
        name: "add".to_string(),
        inputs: vec![
            Input::Identifier { name: "a".to_string(), ty: "i32".to_string() },
            Input::Identifier { name: "b".to_string(), ty: "i32".to_string() },
        ],
        return_type: "i32".to_string(),
        body: "{ a + b }".to_string(),
    }
}

#[test]
fn argument_expression_shows_or_redacts() {
    assert_eq!(write_argument_expression("a", false), "format!(\"{}={:?}\", \"a\", a)");
    assert_eq!(write_argument_expression("a", true), "format!(\"{}={}\", \"a\", \"***\")");
}

#[test]
fn argument_expressions_follow_the_skip_list() {
    let options = AnnotationOptions::parse("skip = b");
    let expressions = write_argument_expressions(&add().parameters(), &options);
    assert_eq!(
        expressions,
        vec!["format!(\"{}={:?}\", \"a\", a)", "format!(\"{}={}\", \"b\", \"***\")"]
    );
}

#[test]
fn instrumented_body_is_written_out_in_full() {
    let options = AnnotationOptions::new();
    assert_eq!(write_instrumented_body(Level::Trace, &options, &add()), ADD_BODY);
}

#[test]
fn header_keeps_decorations_visibility_and_signature() {
    let function = add();
    assert_eq!(
        write_header(&function.decorations, &function.visibility, &function.signature),
        "#[inline] #[must_use] pub fn add(a: i32, b: i32) -> i32"
    );
    assert_eq!(write_header(&vec![], "", "fn f()"), " fn f()");
}

#[test]
fn forced_instrumentation_is_in_both_profiles() {
    let options = AnnotationOptions::parse("force = true");
    let function = add();
    let debug = instrument(Level::Trace, &options, &function, BuildProfile::Instrumented);
    let release = instrument(Level::Trace, &options, &function, BuildProfile::Optimized);
    assert_eq!(debug, release);
    assert_eq!(debug.body, ADD_BODY);
    assert!(release.body.contains(">>> [{}] #Args:"));
    assert!(release.body.contains("<<< [{}] #Ret:"));
    assert_eq!(release.decorations, function.decorations);
    assert_eq!(release.visibility, function.visibility);
    assert_eq!(release.signature, function.signature);
}

#[test]
fn unforced_instrumentation_is_absent_from_the_optimized_profile() {
    let options = AnnotationOptions::parse("");
    let function = add();
    let debug = instrument(Level::Trace, &options, &function, BuildProfile::Instrumented);
    let release = instrument(Level::Trace, &options, &function, BuildProfile::Optimized);
    assert_eq!(debug.body, ADD_BODY);
    assert_eq!(release.body, function.body);
    assert_eq!(release.source(), "#[inline] #[must_use] pub fn add(a: i32, b: i32) -> i32 { a + b }");
    assert_eq!(debug.decorations, function.decorations);
    assert_eq!(debug.visibility, function.visibility);
    assert_eq!(debug.signature, function.signature);
    assert_eq!(release.decorations, function.decorations);
    assert_eq!(release.visibility, function.visibility);
    assert_eq!(release.signature, function.signature);
}

#[test]
fn source_is_header_then_body() {
    let generated = GeneratedFunction {
        decorations: vec!["#[test]".to_string()],
        visibility: String::new(),
        signature: "fn t()".to_string(),
        body: "{ }".to_string(),
    };
    assert_eq!(generated.source(), "#[test]  fn t() { }");
}

#[test]
fn the_level_of_the_options_is_written_into_the_events() {
    let options = AnnotationOptions::parse("level = \"warn\", skip = \"a\"");
    let generated = generate(&options, &add(), BuildProfile::Instrumented).unwrap();
    assert_eq!(generated.body.matches("tracing::Level::WARN").count(), 2);
    assert!(!generated.body.contains("TRACE"));
    assert!(generated.body.contains("vec![format!(\"{}={}\", \"a\", \"***\"), format!(\"{}={:?}\", \"b\", b)]"));
    assert_eq!(generated, instrument(Level::Warn, &options, &add(), BuildProfile::Instrumented));
}

#[test]
fn unrecognized_level_fails_generation() {
    let options = AnnotationOptions::parse("level = \"verbose\"");
    for profile in [BuildProfile::Instrumented, BuildProfile::Optimized] {
        assert_eq!(
            generate(&options, &add(), profile),
            Err(GenerationError::UndefinedSeverity { level: "verbose".to_string() })
        );
    }
    assert_eq!(
        expand(&options, &add()),
        Err(GenerationError::UndefinedSeverity { level: "verbose".to_string() })
    );
    let forced = AnnotationOptions::parse("level = \"\", force = true");
    assert_eq!(
        expand(&forced, &add()),
        Err(GenerationError::UndefinedSeverity { level: String::new() })
    );
}

#[test]
fn expansion_of_a_forced_annotation_is_the_instrumented_definition() {
    let options = AnnotationOptions::parse("force = true");
    let text = write_expansion(Level::Trace, &options, &add());
    assert_eq!(text, format!("#[inline] #[must_use] pub fn add(a: i32, b: i32) -> i32 {}", ADD_BODY));
    assert!(!text.contains("cfg"));
    assert_eq!(expand(&options, &add()), Ok(text));
}

#[test]
fn expansion_of_an_unforced_annotation_holds_both_bodies() {
    let options = AnnotationOptions::new();
    let text = write_expansion(Level::Trace, &options, &add());
    assert_eq!(
        text,
        format!(
            "#[inline] #[must_use] pub fn add(a: i32, b: i32) -> i32 {{ #[cfg(debug_assertions)] {} #[cfg(not(debug_assertions))] {{ a + b }} }}",
            ADD_BODY
        )
    );
    assert_eq!(expand(&options, &add()), Ok(text));
}

#[test]
fn a_function_without_loggable_parameters_gets_an_empty_list() {
    let function = extract_signature("fn tick() { }").unwrap();
    let body = write_instrumented_body(Level::Debug, &AnnotationOptions::new(), &function);
    assert!(body.contains("let __tracing_fn_args: Vec<String> = vec![];"));
    assert!(body.contains("\"tick\""));
}

#[test]
fn the_expansion_is_again_a_definition_of_the_same_function() {
    let source = "#[inline] pub fn login(username: &str, (a, b): (u8, u8), password: &str) -> bool { !username.is_empty() && !password.is_empty() }";
    let function = extract_signature(source).unwrap();
    for args in ["", "force = true", "level = \"error\", skip = \"password\""] {
        let options = AnnotationOptions::parse(args);
        let text = expand(&options, &function).unwrap();
        let again = extract_signature(&text).unwrap();
        assert_eq!(again.name, function.name);
        assert_eq!(again.decorations, function.decorations);
        assert_eq!(again.visibility, function.visibility);
        assert_eq!(again.signature, function.signature);
        assert_eq!(again.inputs, function.inputs);
        assert_eq!(again.return_type, function.return_type);
        assert_ne!(again.body, function.body);
        assert!(again.body.contains(&function.body));
    }
}
