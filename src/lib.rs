//! Safe handles over a native speech-recognition engine: the marshaling of
//! text into and out of the engine, the interpretation of what the engine
//! reports, and the ownership rules that tie a run state to its context.
pub mod error;
pub mod handle;
pub mod marshal;
pub mod tokens;
