//! The failure taxonomy of the engine.
//!
//! Every fallible operation reports one of these tagged reasons instead of an
//! opaque formatted string, so callers can branch on the kind while still
//! being able to render a descriptive message. Cancellation is its own
//! variant so a caller can show an intentional stop rather than an error.

use vstd::prelude::*;

verus! {

/// A failure reason, tagged by stage, carrying the detail a caller needs
/// (a peer-reported message, a path, or the identifier that was not found).
#[derive(Debug, Clone)]
pub enum SftpError {
    /// The host or port could not be reached.
    Transport(String),
    /// Protocol-level negotiation with the peer failed.
    Handshake(String),
    /// The credentials were rejected.
    Authentication(String),
    /// The named session or transfer identifier is not registered.
    NotFound(String),
    /// A local file or directory could not be created, opened or written.
    Filesystem(String),
    /// A remote open, stat, read, write, mkdir, rmdir or unlink failed.
    RemoteOp(String),
    /// The transfer was stopped at the caller's request.
    Cancelled,
    /// The offloaded unit of work itself could not run to completion.
    TaskFailure(String),
}

/// The mathematical shape of a failure reason.
pub ghost enum SftpErrorView {
    Transport(Seq<char>),
    Handshake(Seq<char>),
    Authentication(Seq<char>),
    NotFound(Seq<char>),
    Filesystem(Seq<char>),
    RemoteOp(Seq<char>),
    Cancelled,
    TaskFailure(Seq<char>),
}

impl View for SftpError {
    type V = SftpErrorView;

    open spec fn view(&self) -> SftpErrorView {
        match self {
            SftpError::Transport(d) => SftpErrorView::Transport(d@),
            SftpError::Handshake(d) => SftpErrorView::Handshake(d@),
            SftpError::Authentication(d) => SftpErrorView::Authentication(d@),
            SftpError::NotFound(d) => SftpErrorView::NotFound(d@),
            SftpError::Filesystem(d) => SftpErrorView::Filesystem(d@),
            SftpError::RemoteOp(d) => SftpErrorView::RemoteOp(d@),
            SftpError::Cancelled => SftpErrorView::Cancelled,
            SftpError::TaskFailure(d) => SftpErrorView::TaskFailure(d@),
        }
    }
}

/// The descriptive text for a failure reason.
pub open spec fn spec_error_message(e: SftpErrorView) -> Seq<char> {
    match e {
        SftpErrorView::Transport(d) => "transport failure: "@ + d,
        SftpErrorView::Handshake(d) => "handshake failure: "@ + d,
        SftpErrorView::Authentication(d) => "authentication failure: "@ + d,
        SftpErrorView::NotFound(d) => "not found: "@ + d,
        SftpErrorView::Filesystem(d) => "filesystem failure: "@ + d,
        SftpErrorView::RemoteOp(d) => "remote operation failure: "@ + d,
        SftpErrorView::Cancelled => "transfer cancelled"@,
        SftpErrorView::TaskFailure(d) => "task failure: "@ + d,
    }
}

impl SftpError {
    /// A human-readable message naming the stage and the detail.
    pub fn message(&self) -> (r: String)
        ensures
            r@ == spec_error_message(self@),
    {
        match self {
            SftpError::Transport(d) => String::from_str("transport failure: ").concat(d.as_str()),
            SftpError::Handshake(d) => String::from_str("handshake failure: ").concat(d.as_str()),
            SftpError::Authentication(d) => String::from_str("authentication failure: ").concat(
                d.as_str(),
            ),
            SftpError::NotFound(d) => String::from_str("not found: ").concat(d.as_str()),
            SftpError::Filesystem(d) => String::from_str("filesystem failure: ").concat(d.as_str()),
            SftpError::RemoteOp(d) => String::from_str("remote operation failure: ").concat(
                d.as_str(),
            ),
            SftpError::Cancelled => String::from_str("transfer cancelled"),
            SftpError::TaskFailure(d) => String::from_str("task failure: ").concat(d.as_str()),
        }
    }
}

} // verus!
