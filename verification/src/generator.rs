//! The replacement definition: the annotated function under its own
//! decorations, visibility and signature, with a body that reports entry and
//! exit to the event sink.

use crate::error::GenerationError;
use crate::level::{level_name, resolve_level, Level};
use crate::options::{AnnotationOptions, Options};
use crate::signature::{
    loggable, views, DescriptorModel, FunctionDescriptor, Parameter, ParameterModel,
};
use crate::text::{join, joined, texts};
use vstd::prelude::*;

verus! {

/// The profile a build is produced under.
#[derive(Clone, Copy, Debug, PartialEq, Eq, Structural)]
pub enum BuildProfile {
    /// A debug build, which carries the instrumentation.
    Instrumented,
    /// A release build, which carries it only where it is forced.
    Optimized,
}

/// A generated function definition.
#[derive(Clone, Debug, PartialEq, Eq)]
pub struct GeneratedFunction {
    pub decorations: Vec<String>,
    pub visibility: String,
    pub signature: String,
    /// The body, braces included.
    pub body: String,
}

/// The mathematical content of a [`GeneratedFunction`].
pub ghost struct GeneratedModel {
    pub decorations: Seq<Seq<char>>,
    pub visibility: Seq<char>,
    pub signature: Seq<char>,
    pub body: Seq<char>,
}

impl View for GeneratedFunction {
    type V = GeneratedModel;

    open spec fn view(&self) -> GeneratedModel {
        GeneratedModel {
            decorations: texts(self.decorations@),
            visibility: self.visibility@,
            signature: self.signature@,
            body: self.body@,
        }
    }
}

/// The expression that renders one argument when the generated code runs:
/// the name with the debug representation of the value, or with the
/// redaction marker in place of the value.
pub open spec fn argument_expression(name: Seq<char>, redacted: bool) -> Seq<char> {
    if redacted {
        "format!(\"{}={}\", \""@ + name + "\", \"***\")"@
    } else {
        "format!(\"{}={:?}\", \""@ + name + "\", "@ + name + ")"@
    }
}

/// The rendering expression of every loggable parameter, in declaration
/// order.
pub open spec fn argument_expressions(
    parameters: Seq<ParameterModel>,
    skip: Seq<Seq<char>>,
) -> Seq<Seq<char>> {
    Seq::new(
        parameters.len(),
        |i: int| argument_expression(parameters[i].name, skip.contains(parameters[i].name)),
    )
}

/// The block that emits the entry event.
pub open spec fn entry_block(
    level: Level,
    name: Seq<char>,
    expressions: Seq<Seq<char>>,
) -> Seq<char> {
    "{ let __tracing_fn_args: Vec<String> = vec!["@ + join(expressions, ", "@)
        + "]; let __tracing_fn_args_str = if __tracing_fn_args.is_empty() { \"()\".to_string() } else { __tracing_fn_args.join(\", \") }; tracing::event!(tracing::Level::"@
        + level_name(level) + ", \">>> [{}] #Args: {} --- {}:{}\", \""@ + name
        + "\", __tracing_fn_args_str, file!(), line!()); }"@
}

/// The statements that run the function's own body as one computation, measure
/// the time it takes, emit the exit event and hand its result on.
pub open spec fn timed_statements(level: Level, name: Seq<char>, body: Seq<char>) -> Seq<char> {
    "let __tracing_fn_start = std::time::Instant::now(); let __tracing_fn_result = (move || "@
        + body
        + ")(); let __tracing_fn_duration = __tracing_fn_start.elapsed(); tracing::event!(tracing::Level::"@
        + level_name(level) + ", \"<<< [{}] #Ret: {:?}, duration: {:?}\", \""@ + name
        + "\", __tracing_fn_result, __tracing_fn_duration); __tracing_fn_result"@
}

/// The body that reports entry and exit around the function's own body.
pub open spec fn instrumented_body(
    level: Level,
    skip: Seq<Seq<char>>,
    function: DescriptorModel,
) -> Seq<char> {
    "{ "@ + entry_block(
        level,
        function.name,
        argument_expressions(loggable(function.inputs), skip),
    ) + " "@ + timed_statements(level, function.name, function.body) + " }"@
}

/// Whether a build carries the instrumentation.
pub open spec fn is_instrumented(force: bool, profile: BuildProfile) -> bool {
    force || profile == BuildProfile::Instrumented
}

/// The definition generated for a build under `profile`: the header of the
/// annotated function, and either the instrumented body or its own.
pub open spec fn generated(
    level: Level,
    options: Options,
    function: DescriptorModel,
    profile: BuildProfile,
) -> GeneratedModel {
    GeneratedModel {
        decorations: function.decorations,
        visibility: function.visibility,
        signature: function.signature,
        body: if is_instrumented(options.force, profile) {
            instrumented_body(level, options.skip, function)
        } else {
            function.body
        },
    }
}

/// The decorations, each followed by a space.
pub open spec fn decorations_text(decorations: Seq<Seq<char>>) -> Seq<char>
    decreases decorations.len(),
{
    if decorations.len() == 0 {
        Seq::empty()
    } else {
        decorations_text(decorations.drop_last()) + decorations.last() + " "@
    }
}

/// What stands before the body of a definition.
pub open spec fn header_text(
    decorations: Seq<Seq<char>>,
    visibility: Seq<char>,
    signature: Seq<char>,
) -> Seq<char> {
    decorations_text(decorations) + visibility + " "@ + signature
}

/// The source text of a generated definition.
pub open spec fn definition_text(function: GeneratedModel) -> Seq<char> {
    header_text(function.decorations, function.visibility, function.signature) + " "@
        + function.body
}

/// The source text of the replacement definition. Where the instrumentation
/// is forced it is the instrumented definition. Otherwise the body holds the
/// instrumented body for debug builds and the function's own for the others,
/// and the compiler keeps the one that fits the build.
pub open spec fn expansion_text(
    level: Level,
    options: Options,
    function: DescriptorModel,
) -> Seq<char> {
    if options.force {
        definition_text(generated(level, options, function, BuildProfile::Optimized))
    } else {
        header_text(function.decorations, function.visibility, function.signature)
            + " { #[cfg(debug_assertions)] "@ + generated(
            level,
            options,
            function,
            BuildProfile::Instrumented,
        ).body + " #[cfg(not(debug_assertions))] "@ + generated(
            level,
            options,
            function,
            BuildProfile::Optimized,
        ).body + " }"@
    }
}

/// Where the instrumentation is forced, the build of either profile has the
/// instrumented body under the header of the annotated function.
pub proof fn lemma_forced_instrumentation_is_in_every_build(
    level: Level,
    options: Options,
    function: DescriptorModel,
    profile: BuildProfile,
)
    requires
        options.force,
    ensures
        is_instrumented(options.force, profile),
        generated(level, options, function, profile).body == instrumented_body(
            level,
            options.skip,
            function,
        ),
        generated(level, options, function, profile) == generated(
            level,
            options,
            function,
            BuildProfile::Instrumented,
        ),
        header_text(
            generated(level, options, function, profile).decorations,
            generated(level, options, function, profile).visibility,
            generated(level, options, function, profile).signature,
        ) == header_text(function.decorations, function.visibility, function.signature),
{
}

/// Where the instrumentation is not forced, the instrumented build has the
/// instrumented body and the optimized build has the function's own body,
/// with nothing added; both under the header of the annotated function.
pub proof fn lemma_unforced_instrumentation_follows_the_build(
    level: Level,
    options: Options,
    function: DescriptorModel,
)
    requires
        !options.force,
    ensures
        is_instrumented(options.force, BuildProfile::Instrumented),
        !is_instrumented(options.force, BuildProfile::Optimized),
        generated(level, options, function, BuildProfile::Instrumented).body == instrumented_body(
            level,
            options.skip,
            function,
        ),
        generated(level, options, function, BuildProfile::Optimized).body == function.body,
        definition_text(generated(level, options, function, BuildProfile::Optimized))
            == header_text(function.decorations, function.visibility, function.signature) + " "@
            + function.body,
{
}

/// Writes the expression that renders one argument.
pub fn write_argument_expression(name: &str, redacted: bool) -> (r: String)
    ensures
        r@ == argument_expression(name@, redacted),
{
    if redacted {
        let mut out = "format!(\"{}={}\", \"".to_owned();
        out.append(name);
        out.append("\", \"***\")");
        out
    } else {
        let mut out = "format!(\"{}={:?}\", \"".to_owned();
        out.append(name);
        out.append("\", ");
        out.append(name);
        out.append(")");
        out
    }
}

/// Writes the rendering expression of every parameter.
pub fn write_argument_expressions(
    parameters: &Vec<Parameter>,
    options: &AnnotationOptions,
) -> (r: Vec<String>)
    ensures
        texts(r@) == argument_expressions(views(parameters@), options@.skip),
{
    let mut out: Vec<String> = Vec::new();
    let mut i: usize = 0;
    while i < parameters.len()
        invariant
            i <= parameters.len(),
            out.len() == i,
            forall|j: int|
                0 <= j < i ==> out@[j]@ == argument_expression(
                    parameters@[j].name@,
                    options@.skip.contains(parameters@[j].name@),
                ),
        decreases parameters.len() - i,
    {
        let name = parameters[i].name.as_str();
        let redacted = options.is_skipped(name);
        out.push(write_argument_expression(name, redacted));
        i = i + 1;
    }
    assert(texts(out@) =~= argument_expressions(views(parameters@), options@.skip));
    out
}

/// Writes the body that reports entry and exit around the function's own body.
pub fn write_instrumented_body(
    level: Level,
    options: &AnnotationOptions,
    function: &FunctionDescriptor,
) -> (r: String)
    ensures
        r@ == instrumented_body(level, options@.skip, function@),
{
    let expressions = write_argument_expressions(&function.parameters(), options);
    let name = function.name.as_str();
    let mut out = "{ ".to_owned();
    out.append("{ let __tracing_fn_args: Vec<String> = vec![");
    out.append(joined(&expressions, ", ").as_str());
    out.append(
        "]; let __tracing_fn_args_str = if __tracing_fn_args.is_empty() { \"()\".to_string() } else { __tracing_fn_args.join(\", \") }; tracing::event!(tracing::Level::",
    );
    out.append(level.name());
    out.append(", \">>> [{}] #Args: {} --- {}:{}\", \"");
    out.append(name);
    out.append("\", __tracing_fn_args_str, file!(), line!()); }");
    out.append(" ");
    out.append(
        "let __tracing_fn_start = std::time::Instant::now(); let __tracing_fn_result = (move || ",
    );
    out.append(function.body.as_str());
    out.append(
        ")(); let __tracing_fn_duration = __tracing_fn_start.elapsed(); tracing::event!(tracing::Level::",
    );
    out.append(level.name());
    out.append(", \"<<< [{}] #Ret: {:?}, duration: {:?}\", \"");
    out.append(name);
    out.append("\", __tracing_fn_result, __tracing_fn_duration); __tracing_fn_result");
    out.append(" }");
    assert(out@ =~= instrumented_body(level, options@.skip, function@));
    out
}

/// Copies the texts of `items`.
fn copy_texts(items: &Vec<String>) -> (r: Vec<String>)
    ensures
        texts(r@) == texts(items@),
{
    let mut out: Vec<String> = Vec::new();
    let mut i: usize = 0;
    while i < items.len()
        invariant
            i <= items.len(),
            out.len() == i,
            forall|j: int| 0 <= j < i ==> out@[j]@ == items@[j]@,
        decreases items.len() - i,
    {
        out.push(items[i].clone());
        i = i + 1;
    }
    assert(texts(out@) =~= texts(items@));
    out
}

/// Writes what stands before the body of a definition.
pub fn write_header(decorations: &Vec<String>, visibility: &str, signature: &str) -> (r: String)
    ensures
        r@ == header_text(texts(decorations@), visibility@, signature@),
{
    let mut out = String::new();
    let mut i: usize = 0;
    assert(texts(decorations@).take(0) =~= Seq::empty());
    while i < decorations.len()
        invariant
            i <= decorations.len(),
            out@ == decorations_text(texts(decorations@).take(i as int)),
        decreases decorations.len() - i,
    {
        proof {
            let read = texts(decorations@).take(i as int + 1);
            assert(read.drop_last() =~= texts(decorations@).take(i as int));
            assert(read.last() == decorations@[i as int]@);
        }
        out.append(decorations[i].as_str());
        out.append(" ");
        i = i + 1;
    }
    assert(texts(decorations@).take(i as int) =~= texts(decorations@));
    out.append(visibility);
    out.append(" ");
    out.append(signature);
    out
}

impl GeneratedFunction {
    /// The source text of the definition.
    pub fn source(&self) -> (r: String)
        ensures
            r@ == definition_text(self@),
    {
        let mut out = write_header(
            &self.decorations,
            self.visibility.as_str(),
            self.signature.as_str(),
        );
        out.append(" ");
        out.append(self.body.as_str());
        out
    }
}

/// Generates the definition for a build under `profile`, at a severity that
/// is already resolved.
pub fn instrument(
    level: Level,
    options: &AnnotationOptions,
    function: &FunctionDescriptor,
    profile: BuildProfile,
) -> (r: GeneratedFunction)
    ensures
        r@ == generated(level, options@, function@, profile),
{
    let body = if options.force || profile == BuildProfile::Instrumented {
        write_instrumented_body(level, options, function)
    } else {
        function.body.clone()
    };
    GeneratedFunction {
        decorations: copy_texts(&function.decorations),
        visibility: function.visibility.clone(),
        signature: function.signature.clone(),
        body,
    }
}

/// Generates the definition for a build under `profile`. Generation fails
/// exactly when the severity that the options name is not one the event sink
/// has.
pub fn generate(
    options: &AnnotationOptions,
    function: &FunctionDescriptor,
    profile: BuildProfile,
) -> (r: Result<GeneratedFunction, GenerationError>)
    ensures
        match resolve_level(options@.level) {
            Some(level) => r matches Ok(definition) && definition@ == generated(
                level,
                options@,
                function@,
                profile,
            ),
            None => r matches Err(GenerationError::UndefinedSeverity { level })
                && level@ == options@.level,
        },
{
    match Level::resolve(options.level.as_str()) {
        Some(level) => Ok(instrument(level, options, function, profile)),
        None => Err(GenerationError::UndefinedSeverity { level: options.level.clone() }),
    }
}

/// Writes the replacement definition at a severity that is already
/// resolved.
pub fn write_expansion(
    level: Level,
    options: &AnnotationOptions,
    function: &FunctionDescriptor,
) -> (r: String)
    ensures
        r@ == expansion_text(level, options@, function@),
{
    if options.force {
        instrument(level, options, function, BuildProfile::Optimized).source()
    } else {
        let mut out = write_header(
            &function.decorations,
            function.visibility.as_str(),
            function.signature.as_str(),
        );
        out.append(" { #[cfg(debug_assertions)] ");
        out.append(write_instrumented_body(level, options, function).as_str());
        out.append(" #[cfg(not(debug_assertions))] ");
        out.append(function.body.as_str());
        out.append(" }");
        out
    }
}

/// Writes the replacement definition. Generation fails exactly when the
/// severity that the options name is not one the event sink has.
pub fn expand(
    options: &AnnotationOptions,
    function: &FunctionDescriptor,
) -> (r: Result<String, GenerationError>)
    ensures
        match resolve_level(options@.level) {
            Some(level) => r matches Ok(text) && text@ == expansion_text(
                level,
                options@,
                function@,
            ),
            None => r matches Err(GenerationError::UndefinedSeverity { level })
                && level@ == options@.level,
        },
{
    match Level::resolve(options.level.as_str()) {
        Some(level) => Ok(write_expansion(level, options, function)),
        None => Err(GenerationError::UndefinedSeverity { level: options.level.clone() }),
    }
}

} // verus!
