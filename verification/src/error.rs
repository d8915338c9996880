//! The failures the harness surfaces to its caller.
//!
//! Every failure is returned as an explicit value; nothing is swallowed and
//! nothing is retried. The taxonomy separates construction failures, the
//! two ways a request can go wrong (the transport failing, the timeout
//! winning the race), and a body that is not the text it was asked for.

use vstd::prelude::*;

verus! {

/// A failure surfaced by the harness.
#[derive(Debug)]
pub enum TestError {
    /// Engine creation or endpoint binding failed while the harness was
    /// being constructed.
    Setup,
    /// The in-process connector could not reach the bound endpoint.
    Connect,
    /// The request future resolved with an error; the underlying cause is
    /// kept for diagnostics.
    RequestFailed { cause: String },
    /// The configured timeout elapsed before the request completed; the
    /// pending request was abandoned, not retried.
    TimedOut,
    /// A response body was not valid UTF-8 when text was explicitly
    /// requested.
    Encoding,
}

/// The spec-level image of a `TestError`.
#[verifier::ext_equal]
pub enum ErrorModel {
    Setup,
    Connect,
    RequestFailed { cause: Seq<char> },
    TimedOut,
    Encoding,
}

impl View for TestError {
    type V = ErrorModel;

    open spec fn view(&self) -> ErrorModel {
        match self {
            TestError::Setup => ErrorModel::Setup,
            TestError::Connect => ErrorModel::Connect,
            TestError::RequestFailed { cause } => ErrorModel::RequestFailed { cause: cause@ },
            TestError::TimedOut => ErrorModel::TimedOut,
            TestError::Encoding => ErrorModel::Encoding,
        }
    }
}

} // verus!
