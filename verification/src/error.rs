//! The error taxonomy, and the classification of engine failures.

use vstd::prelude::*;
use crate::text::joined;

verus! {

/// What went wrong, in seven classes.
#[derive(Clone, Copy, Debug, PartialEq, Eq, Structural)]
pub enum ErrorKind {
    Timeout,
    Connection,
    Decode,
    Method,
    Url,
    Json,
    Generic,
}

/// The mathematical content of an error: its class, its message and, for a
/// failure that a partly received response accompanied, that response's
/// status code.
pub struct ErrorInfo {
    pub kind: ErrorKind,
    pub message: Seq<char>,
    pub status_code: Option<u16>,
}

/// A failure surfaced to the caller. The variant is the class of the failure.
#[derive(Clone, Debug)]
pub enum VaneError {
    Timeout { message: String, status_code: Option<u16> },
    Connection { message: String, status_code: Option<u16> },
    Decode { message: String, status_code: Option<u16> },
    Method { message: String, status_code: Option<u16> },
    Url { message: String, status_code: Option<u16> },
    Json { message: String, status_code: Option<u16> },
    Generic { message: String, status_code: Option<u16> },
}

/// What the HTTP engine reports of a request that it could not complete:
/// three flags, the status code if a response had begun to arrive, and the
/// engine's own description.
#[derive(Clone, Debug)]
pub struct TransportFailure {
    pub timeout: bool,
    pub connect: bool,
    pub decode: bool,
    pub status_code: Option<u16>,
    pub text: String,
}

impl View for VaneError {
    type V = ErrorInfo;

    open spec fn view(&self) -> ErrorInfo {
        match *self {
            VaneError::Timeout { message, status_code } => ErrorInfo {
                kind: ErrorKind::Timeout,
                message: message@,
                status_code,
            },
            VaneError::Connection { message, status_code } => ErrorInfo {
                kind: ErrorKind::Connection,
                message: message@,
                status_code,
            },
            VaneError::Decode { message, status_code } => ErrorInfo {
                kind: ErrorKind::Decode,
                message: message@,
                status_code,
            },
            VaneError::Method { message, status_code } => ErrorInfo {
                kind: ErrorKind::Method,
                message: message@,
                status_code,
            },
            VaneError::Url { message, status_code } => ErrorInfo {
                kind: ErrorKind::Url,
                message: message@,
                status_code,
            },
            VaneError::Json { message, status_code } => ErrorInfo {
                kind: ErrorKind::Json,
                message: message@,
                status_code,
            },
            VaneError::Generic { message, status_code } => ErrorInfo {
                kind: ErrorKind::Generic,
                message: message@,
                status_code,
            },
        }
    }
}

/// An error of class `kind` whose message is `prefix` followed by `detail`,
/// and which carries no status code.
pub open spec fn described(kind: ErrorKind, prefix: Seq<char>, detail: Seq<char>) -> ErrorInfo {
    ErrorInfo { kind, message: prefix + detail, status_code: None }
}

/// The class of an engine failure. A timeout is reported as such even when
/// the connection or the decoding is also blamed; a connection failure comes
/// before a decoding failure; anything else is generic.
pub open spec fn failure_kind(timeout: bool, connect: bool, decode: bool) -> ErrorKind {
    if timeout {
        ErrorKind::Timeout
    } else if connect {
        ErrorKind::Connection
    } else if decode {
        ErrorKind::Decode
    } else {
        ErrorKind::Generic
    }
}

/// The word that opens the message of an engine failure of class `kind`.
pub open spec fn failure_label(kind: ErrorKind) -> Seq<char> {
    match kind {
        ErrorKind::Timeout => "Timeout"@,
        ErrorKind::Connection => "Connection"@,
        ErrorKind::Decode => "Decode"@,
        _ => "Request"@,
    }
}

/// The error that an engine failure becomes.
pub open spec fn classified(
    timeout: bool,
    connect: bool,
    decode: bool,
    status_code: Option<u16>,
    text: Seq<char>,
) -> ErrorInfo {
    let kind = failure_kind(timeout, connect, decode);
    ErrorInfo { kind, message: failure_label(kind) + " error: "@ + text, status_code }
}

impl VaneError {
    /// Builds the error with the given content.
    pub fn new(kind: ErrorKind, message: String, status_code: Option<u16>) -> (e: VaneError)
        ensures
            e@ == (ErrorInfo { kind, message: message@, status_code }),
    {
        match kind {
            ErrorKind::Timeout => VaneError::Timeout { message, status_code },
            ErrorKind::Connection => VaneError::Connection { message, status_code },
            ErrorKind::Decode => VaneError::Decode { message, status_code },
            ErrorKind::Method => VaneError::Method { message, status_code },
            ErrorKind::Url => VaneError::Url { message, status_code },
            ErrorKind::Json => VaneError::Json { message, status_code },
            ErrorKind::Generic => VaneError::Generic { message, status_code },
        }
    }

    /// Builds an error of class `kind` from a fixed prefix and a detail text.
    pub fn describe(kind: ErrorKind, prefix: &str, detail: &str) -> (e: VaneError)
        ensures
            e@ == described(kind, prefix@, detail@),
    {
        VaneError::new(kind, joined(prefix, detail), None)
    }

    /// Classifies a failure of the HTTP engine.
    pub fn from(failure: TransportFailure) -> (e: VaneError)
        ensures
            e@ == classified(
                failure.timeout,
                failure.connect,
                failure.decode,
                failure.status_code,
                failure.text@,
            ),
    {
        let kind = if failure.timeout {
            ErrorKind::Timeout
        } else if failure.connect {
            ErrorKind::Connection
        } else if failure.decode {
            ErrorKind::Decode
        } else {
            ErrorKind::Generic
        };
        let label = match kind {
            ErrorKind::Timeout => "Timeout",
            ErrorKind::Connection => "Connection",
            ErrorKind::Decode => "Decode",
            _ => "Request",
        };
        let head = joined(label, " error: ");
        let message = joined(head.as_str(), failure.text.as_str());
        VaneError::new(kind, message, failure.status_code)
    }

    /// The error raised when the HTTP engine itself cannot be constructed.
    pub fn engine_failure(text: &str) -> (e: VaneError)
        ensures
            e@ == described(ErrorKind::Generic, "Failed to create client: "@, text@),
    {
        VaneError::describe(ErrorKind::Generic, "Failed to create client: ", text)
    }

    /// The class of this error.
    pub fn kind(&self) -> (k: ErrorKind)
        ensures
            k == self@.kind,
    {
        match self {
            VaneError::Timeout { .. } => ErrorKind::Timeout,
            VaneError::Connection { .. } => ErrorKind::Connection,
            VaneError::Decode { .. } => ErrorKind::Decode,
            VaneError::Method { .. } => ErrorKind::Method,
            VaneError::Url { .. } => ErrorKind::Url,
            VaneError::Json { .. } => ErrorKind::Json,
            VaneError::Generic { .. } => ErrorKind::Generic,
        }
    }

    /// The human-readable message.
    pub fn message(&self) -> (m: &str)
        ensures
            m@ == self@.message,
    {
        match self {
            VaneError::Timeout { message, .. } => message.as_str(),
            VaneError::Connection { message, .. } => message.as_str(),
            VaneError::Decode { message, .. } => message.as_str(),
            VaneError::Method { message, .. } => message.as_str(),
            VaneError::Url { message, .. } => message.as_str(),
            VaneError::Json { message, .. } => message.as_str(),
            VaneError::Generic { message, .. } => message.as_str(),
        }
    }

    /// The status code of the response that the failure accompanied, if any.
    pub fn status_code(&self) -> (s: Option<u16>)
        ensures
            s == self@.status_code,
    {
        match self {
            VaneError::Timeout { status_code, .. } => *status_code,
            VaneError::Connection { status_code, .. } => *status_code,
            VaneError::Decode { status_code, .. } => *status_code,
            VaneError::Method { status_code, .. } => *status_code,
            VaneError::Url { status_code, .. } => *status_code,
            VaneError::Json { status_code, .. } => *status_code,
            VaneError::Generic { status_code, .. } => *status_code,
        }
    }
}

} // verus!
