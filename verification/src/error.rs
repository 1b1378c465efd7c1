//! The error taxonomy for remote operations.
//!
//! Every failure of a remote call is one of three things: no response was
//! obtained at all, a response was obtained but its status signals failure,
//! or a success response carried a body of the wrong shape. All three are
//! surfaced to the caller unmodified; nothing is retried or suppressed.

use vstd::prelude::*;

verus! {

/// Why a remote operation failed.
#[derive(Debug)]
pub enum RemoteError {
    /// No response was obtained (connection refused, timeout, DNS).
    TransportFailure { detail: String },
    /// A response arrived, but its status is outside the success range.
    /// Carries the status and the raw body for diagnostics.
    ProtocolFailure { status: u16, body: Vec<u8> },
    /// A success response arrived, but its body did not decode as the
    /// expected shape. Carries the raw body.
    DecodeFailure { raw: Vec<u8> },
}

/// The mathematical shape of a `RemoteError`.
pub enum RemoteErrorView {
    TransportFailure { detail: Seq<char> },
    ProtocolFailure { status: u16, body: Seq<u8> },
    DecodeFailure { raw: Seq<u8> },
}

impl View for RemoteError {
    type V = RemoteErrorView;

    open spec fn view(&self) -> RemoteErrorView {
        match *self {
            RemoteError::TransportFailure { detail } => RemoteErrorView::TransportFailure {
                detail: detail@,
            },
            RemoteError::ProtocolFailure { status, body } => RemoteErrorView::ProtocolFailure {
                status,
                body: body@,
            },
            RemoteError::DecodeFailure { raw } => RemoteErrorView::DecodeFailure { raw: raw@ },
        }
    }
}

/// Any status in the 2xx range means the operation succeeded.
pub open spec fn is_success_status(status: u16) -> bool {
    200 <= status <= 299
}

/// Resource-not-found is signalled by a 404 status.
pub open spec fn is_not_found_status(status: u16) -> bool {
    status == 404
}

impl RemoteErrorView {
    /// A protocol failure whose status classifies as not-found.
    pub open spec fn is_not_found(self) -> bool {
        match self {
            RemoteErrorView::ProtocolFailure { status, .. } => is_not_found_status(status),
            _ => false,
        }
    }
}

impl RemoteError {
    /// Whether this failure means the requested resource does not exist.
    pub fn not_found(&self) -> (r: bool)
        ensures
            r == self@.is_not_found(),
    {
        match self {
            RemoteError::ProtocolFailure { status, body: _ } => *status == 404,
            _ => false,
        }
    }
}

} // verus!
