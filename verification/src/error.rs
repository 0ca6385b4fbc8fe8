//! The ways in which one run of the pipeline can fail.

use vstd::prelude::*;

verus! {

/// Why an evaluation did not produce a dataset. Every kind is recoverable:
/// the caller shows a failure and waits for the next input.
#[derive(Clone, Copy, Debug, PartialEq, Eq, Structural)]
pub enum PipelineError {
    /// The expression text is not a well-formed expression.
    ExpressionParseError,
    /// The expression names a variable other than `x`, or a function that
    /// is unknown or applied to the wrong number of arguments.
    ExpressionBindError,
    /// The domain text is not `<integer>..<integer>`.
    DomainFormatError,
    /// The domain holds more integers than one run may sample.
    DomainTooLargeError,
    /// The expression has no finite value at some integer of the domain.
    EvaluationError,
}

} // verus!
