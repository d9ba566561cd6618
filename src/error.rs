use vstd::prelude::*;

verus! {

/// The ways in which an operation on a context or a run state can fail.
#[derive(Debug, Clone, Copy, PartialEq, Eq, Structural)]
pub enum WhisperError {
    /// A caller-supplied string holds an embedded null byte; no native call was made.
    InvalidArgument,
    /// The engine could not load a model or allocate a run state.
    InitializationError,
    /// The engine's tokenizer reported failure, mostly for lack of room.
    TokenizationOverflow,
    /// A string query of the engine yielded nothing (for instance an unknown token id).
    LookupFailed,
    /// The engine handed back bytes that are not valid UTF-8 where text was asked for.
    EncodingError,
}

} // verus!
