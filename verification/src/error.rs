use vstd::prelude::*;
use vstd::string::*;

verus! {

/// Every failure of the dereferencer.
///
/// `RecursionLimitExceeded` is the outcome chosen for unbounded schema
/// recursion: a chain of schema references deeper than the configured
/// depth bound fails instead of recursing forever (no cycle detection
/// is attempted).
#[derive(Debug)]
pub enum OpenApiError {
    /// Malformed input, or a located node that does not decode into the
    /// shape a dereferenced slot expects; the message carries the
    /// offending pointer.
    ParsingError { msg: String },
    /// The reference does not stay inside this document (it does not
    /// start with `#`).
    UnsupportedRefFormat { reference: String },
    /// The document's `openapi` version is not 3.1.
    UnsupportedOpenApiVersion,
    /// Server aggregation was requested before dereferencing completed.
    DerefBeforeGettingServers,
    /// A schema reference chain exceeded the recursion depth bound.
    RecursionLimitExceeded,
}

/// Mathematical mirror of `OpenApiError`.
pub ghost enum ErrV {
    ParsingError { msg: Seq<char> },
    UnsupportedRefFormat { reference: Seq<char> },
    UnsupportedOpenApiVersion,
    DerefBeforeGettingServers,
    RecursionLimitExceeded,
}

/// A parsing failure annotated with the pointer at which it occurred;
/// other failures pass through untouched.
pub open spec fn located(e: ErrV, reference: Seq<char>) -> ErrV {
    match e {
        ErrV::ParsingError { msg } => ErrV::ParsingError {
            msg: msg + " at reference "@ + reference,
        },
        _ => e,
    }
}

impl OpenApiError {
    /// Annotates a parsing failure with the pointer at which it occurred.
    pub fn locate(self, reference: &str) -> (r: OpenApiError)
        ensures
            r@ == located(self@, reference@),
    {
        match self {
            OpenApiError::ParsingError { msg } => {
                let mut m = msg;
                m.append(" at reference ");
                m.append(reference);
                OpenApiError::ParsingError { msg: m }
            },
            other => other,
        }
    }
}

impl View for OpenApiError {
    type V = ErrV;

    open spec fn view(&self) -> ErrV {
        match self {
            OpenApiError::ParsingError { msg } => ErrV::ParsingError { msg: msg@ },
            OpenApiError::UnsupportedRefFormat { reference } => ErrV::UnsupportedRefFormat {
                reference: reference@,
            },
            OpenApiError::UnsupportedOpenApiVersion => ErrV::UnsupportedOpenApiVersion,
            OpenApiError::DerefBeforeGettingServers => ErrV::DerefBeforeGettingServers,
            OpenApiError::RecursionLimitExceeded => ErrV::RecursionLimitExceeded,
        }
    }
}

} // verus!
