//! Function-level tracing instrumentation, generated as source text.
//!
//! The annotation's parameter text is parsed into
//! [`options::AnnotationOptions`], the annotated function definition is read
//! into a [`signature::FunctionDescriptor`], and the generator writes the
//! replacement definition whose body reports the arguments on entry and the
//! result and elapsed time on exit.

pub mod arguments;
pub mod error;
pub mod events;
pub mod generator;
pub mod level;
pub mod options;
pub mod signature;
pub mod text;

use crate::error::GenerationError;
use crate::generator::{expand, expansion_text};
use crate::level::resolve_level;
use crate::options::{parse_options, AnnotationOptions};
use crate::signature::{extract_signature, DescriptorModel};
use vstd::prelude::*;

verus! {

/// Instruments one function: `args` is the parameter text of the annotation,
/// `input` the text of the function definition under it, and the result the
/// text of the definition that replaces it.
///
/// The options are those that `args` denotes. A text that the parser does
/// not read as a function definition is refused first; then a severity that
/// the event sink does not have. Otherwise the result is the expansion of
/// the definition that the parser read, under those options.
pub fn tracing_fn(args: &str, input: &str) -> (r: Result<String, GenerationError>)
    ensures
        match r {
            Ok(text) => resolve_level(parse_options(args@).level) matches Some(level)
                && exists|function: DescriptorModel|
                text@ == #[trigger] expansion_text(level, parse_options(args@), function),
            Err(GenerationError::UndefinedSeverity { level }) => level@ == parse_options(
                args@,
            ).level && resolve_level(level@) is None,
            Err(GenerationError::InvalidDefinition { .. }) => true,
        },
{
    let options = AnnotationOptions::parse(args);
    match extract_signature(input) {
        Ok(function) => expand(&options, &function),
        Err(refusal) => Err(refusal),
    }
}

} // verus!
