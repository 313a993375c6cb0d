use vstd::prelude::*;

verus! {

/// Stable, transport-independent failure categories.
#[derive(Clone, Copy, Debug, Eq, PartialEq, Structural)]
pub enum ErrorCode {
    /// The caller supplied an invalid request or schema value.
    InvalidRequest,
    /// No registered provider can satisfy the requested capability.
    CapabilityUnavailable,
    /// An explicit provider or interaction constraint cannot be satisfied.
    ConstraintUnsatisfied,
    /// Policy denied the invocation before software interaction.
    PolicyDenied,
    /// The invocation identifier already exists.
    DuplicateInvocation,
    /// The invocation identifier is unknown.
    InvocationNotFound,
    /// A bounded runtime or catalog capacity has been reached.
    ResourceExhausted,
    /// Input failed the selected capability schema.
    InputSchemaViolation,
    /// Output failed the selected capability schema.
    OutputSchemaViolation,
    /// The selected provider failed.
    ProviderFailed,
    /// Cancellation was requested and observed.
    Cancelled,
    /// An internal invariant failed without exposing implementation details.
    Internal,
}

/// A bounded error safe to carry through SDK transports.
#[derive(Debug, Eq, PartialEq)]
pub struct SoftwareUseError {
    /// Stable machine-readable category.
    pub code: ErrorCode,
    /// Human-readable diagnostic without arbitrary provider secrets.
    pub message: String,
    /// Whether a caller may reasonably retry as a new invocation.
    pub retryable: bool,
}

impl Clone for SoftwareUseError {
    fn clone(&self) -> (r: Self)
        ensures
            r.code == self.code,
            r.message@ == self.message@,
            r.retryable == self.retryable,
    {
        SoftwareUseError {
            code: self.code,
            message: self.message.clone(),
            retryable: self.retryable,
        }
    }
}

impl SoftwareUseError {
    /// Constructs a non-retryable SDK error.
    pub fn new(code: ErrorCode, message: &str) -> (r: Self)
        ensures
            r.code == code,
            r.message@ == message@,
            !r.retryable,
    {
        SoftwareUseError { code, message: message.to_owned(), retryable: false }
    }

    /// Marks whether a new explicit invocation may be retried.
    pub fn with_retryable(self, retryable: bool) -> (r: Self)
        ensures
            r == (SoftwareUseError { retryable, ..self }),
    {
        let mut error = self;
        error.retryable = retryable;
        error
    }
}

} // verus!
