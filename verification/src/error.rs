//! Why a replacement definition could not be generated.

use vstd::prelude::*;

verus! {

/// A failure of generation. None of them occurs when the generated code
/// runs.
#[derive(Clone, Debug, PartialEq, Eq)]
pub enum GenerationError {
    /// The annotated text is no function definition; `message` says why not.
    InvalidDefinition { message: String },
    /// The annotation names a severity that the event sink does not have.
    UndefinedSeverity { level: String },
}

} // verus!
