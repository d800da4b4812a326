use vstd::prelude::*;

verus! {

/// Why a namespace or a blob could not be normalized.
///
/// The first three variants are validation failures: the caller handed in
/// malformed input. `CannotCreateBlob` is an internal failure: the input was
/// well formed, but the engine could not build the blob; it carries the
/// engine's message.
#[derive(Debug, Clone, PartialEq, Eq)]
pub enum NormalizeError {
    WrongNamespace,
    WrongBlobData,
    WrongSignerData,
    CannotCreateBlob(String),
}

impl NormalizeError {
    /// Whether the caller's input was malformed, as opposed to the engine
    /// failing on well-formed input.
    pub fn is_validation(&self) -> (r: bool)
        ensures
            r <==> !(self is CannotCreateBlob),
    {
        match self {
            NormalizeError::CannotCreateBlob(_) => false,
            _ => true,
        }
    }
}

} // verus!
