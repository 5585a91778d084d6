use vstd::prelude::*;

verus! {

/// Every failure the library reports, across all three operations.
///
/// Argument-validation errors are produced before any work is scheduled;
/// state errors (`AlreadyFinished`, `WrongResourceKind`) are kept distinct
/// from I/O faults so a caller can tell misuse from a genuine failure.
#[derive(Clone, Debug, PartialEq, Eq)]
pub enum ApiError {
    /// Placeholder stored in a fresh task slot before the worker step runs;
    /// never delivered to a caller.
    Pending,
    /// The call expects exactly one argument and none was given.
    MissingArgument,
    /// The first argument must be a string.
    ExpectedString,
    /// The first argument must be a probe handle.
    ExpectedProbe,
    /// The options argument is not a record at all.
    InvalidOptions,
    /// The options record failed validation; the flags name exactly the
    /// offending fields.
    InvalidOptionFields { scale: bool, repeat: bool },
    /// The probing tool produced no output for the given source.
    SourceNotFound,
    /// The probing tool could not be run; carries the OS error text.
    ProbeFailed(String),
    /// The transcoder could not be spawned on either path; carries the OS
    /// error text of the last attempt.
    SpawnFailed(String),
    /// The transcoder for the combine operation could not be started.
    CombineSpawnFailed,
    /// The sink's input pipe is already closed.
    AlreadyFinished,
    /// A written buffer must hold exactly one frame.
    WrongBufferSize { expected: usize },
    /// One frame's byte size does not fit in the address space.
    FrameTooLarge,
    /// The handle holds a resource of another kind.
    WrongResourceKind,
    /// An unexpected I/O fault; carries the OS error text.
    IoFault(String),
}

} // verus!
