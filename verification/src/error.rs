//! The error taxonomy of the transport layer.
//!
//! Every failure carries a human-readable message; no error is ever silently
//! downgraded.  The variants follow the layer's failure classes: a missing
//! socket path, a live daemon already owning the path, a stale socket file
//! that could not be removed, OS-level bind/connect failures, and malformed
//! TLS material.

use vstd::prelude::*;

verus! {

/// Ghost model of an [`Error`]: the same variants over `Seq<char>`.
pub enum ErrorView {
    NotFound(Seq<char>),
    AlreadyRunning(Seq<char>),
    StaleRemovalFailed(Seq<char>),
    BindFailed(Seq<char>),
    ConnectFailed(Seq<char>),
    InvalidCertificate(Seq<char>),
    InvalidKey(Seq<char>),
    InvalidInput(Seq<char>),
}

/// A failure of the transport layer, with a message meant for the operator.
#[derive(Debug)]
pub enum Error {
    /// The configured Unix socket path does not exist.
    NotFound(String),
    /// A live daemon already owns the requested socket path.
    AlreadyRunning(String),
    /// A stale socket file was found but could not be deleted.
    StaleRemovalFailed(String),
    /// The OS refused to bind the listener.
    BindFailed(String),
    /// The OS refused the connection.
    ConnectFailed(String),
    /// The certificate file could not be parsed, or held no certificate.
    InvalidCertificate(String),
    /// The key file could not be parsed, or held no usable private key.
    InvalidKey(String),
    /// The TLS material could not be assembled into a server configuration.
    InvalidInput(String),
}

impl View for Error {
    type V = ErrorView;

    open spec fn view(&self) -> ErrorView {
        match self {
            Error::NotFound(m) => ErrorView::NotFound(m@),
            Error::AlreadyRunning(m) => ErrorView::AlreadyRunning(m@),
            Error::StaleRemovalFailed(m) => ErrorView::StaleRemovalFailed(m@),
            Error::BindFailed(m) => ErrorView::BindFailed(m@),
            Error::ConnectFailed(m) => ErrorView::ConnectFailed(m@),
            Error::InvalidCertificate(m) => ErrorView::InvalidCertificate(m@),
            Error::InvalidKey(m) => ErrorView::InvalidKey(m@),
            Error::InvalidInput(m) => ErrorView::InvalidInput(m@),
        }
    }
}

/// The message of an [`ErrorView`], independent of the variant.
pub open spec fn spec_message(e: ErrorView) -> Seq<char> {
    match e {
        ErrorView::NotFound(m) => m,
        ErrorView::AlreadyRunning(m) => m,
        ErrorView::StaleRemovalFailed(m) => m,
        ErrorView::BindFailed(m) => m,
        ErrorView::ConnectFailed(m) => m,
        ErrorView::InvalidCertificate(m) => m,
        ErrorView::InvalidKey(m) => m,
        ErrorView::InvalidInput(m) => m,
    }
}

impl Error {
    /// The operator-facing message of this error.
    pub fn message(&self) -> (m: &String)
        ensures
            m@ == spec_message(self@),
    {
        match self {
            Error::NotFound(m) => m,
            Error::AlreadyRunning(m) => m,
            Error::StaleRemovalFailed(m) => m,
            Error::BindFailed(m) => m,
            Error::ConnectFailed(m) => m,
            Error::InvalidCertificate(m) => m,
            Error::InvalidKey(m) => m,
            Error::InvalidInput(m) => m,
        }
    }
}

} // verus!
