//! Errors raised while accepting connections, and the rule that decides which
//! of them end an accept loop.
use std::ops::ControlFlow;
use vstd::prelude::*;

verus! {

/// The kind of an I/O error, as far as this library tells kinds apart.
///
/// Every kind of `std::io::ErrorKind` that is not listed here is `Other`.
#[derive(Clone, Copy, Debug, PartialEq, Eq, Structural)]
pub enum IoErrorKind {
    NotFound,
    PermissionDenied,
    ConnectionRefused,
    ConnectionReset,
    ConnectionAborted,
    WouldBlock,
    InvalidInput,
    InvalidData,
    TimedOut,
    Interrupted,
    UnexpectedEof,
    Other,
}

/// Kinds that concern one connection only: the next `accept()` may succeed.
pub open spec fn is_connection_error_kind(kind: IoErrorKind) -> bool {
    ||| kind == IoErrorKind::ConnectionRefused
    ||| kind == IoErrorKind::ConnectionAborted
    ||| kind == IoErrorKind::ConnectionReset
}

/// Kinds after which an accept loop goes on with the next connection.
pub open spec fn is_non_fatal_accept_kind(kind: IoErrorKind) -> bool {
    ||| kind == IoErrorKind::ConnectionAborted
    ||| kind == IoErrorKind::Interrupted
    ||| kind == IoErrorKind::InvalidData
    ||| kind == IoErrorKind::WouldBlock
}

/// An error of any type, held as the values this library reads of it: its
/// kind when it is an I/O error (`None` when it is not one), and its message.
#[derive(Clone, Debug)]
pub struct AnyError {
    pub io_kind: Option<IoErrorKind>,
    pub message: String,
}

impl AnyError {
    /// An I/O error of the given kind.
    pub fn io(kind: IoErrorKind, message: String) -> (res: AnyError)
        ensures
            res.io_kind == Some(kind),
            res.message == message,
    {
        AnyError { io_kind: Some(kind), message }
    }

    /// An error that is not an I/O error.
    pub fn other(message: String) -> (res: AnyError)
        ensures
            res.io_kind.is_none(),
            res.message == message,
    {
        AnyError { io_kind: None, message }
    }
}

/// An accept error ends the accept loop unless it is an I/O error of a
/// non-fatal kind.
pub open spec fn accept_error_is_fatal(e: AnyError) -> bool {
    match e.io_kind {
        Some(kind) => !is_non_fatal_accept_kind(kind),
        None => true,
    }
}

/// Whether an error returned by `accept()` concerns only the connection that
/// was being accepted.
pub fn is_connection_error(kind: IoErrorKind) -> (res: bool)
    ensures
        res == is_connection_error_kind(kind),
{
    match kind {
        IoErrorKind::ConnectionRefused | IoErrorKind::ConnectionAborted
        | IoErrorKind::ConnectionReset => true,
        _ => false,
    }
}

/// Decides whether an error met while accepting connections is fatal.
///
/// I/O errors of kind `ConnectionAborted`, `Interrupted`, `InvalidData` (a
/// failed TLS handshake) and `WouldBlock` let the loop continue; every other
/// error, I/O or not, breaks it and is handed back.
pub fn handle_accept_error(e: AnyError) -> (res: ControlFlow<AnyError>)
    ensures
        !accept_error_is_fatal(e) ==> res == ControlFlow::<AnyError, ()>::Continue(()),
        accept_error_is_fatal(e) ==> res == ControlFlow::<AnyError, ()>::Break(e),
        res is Continue <==> (e.io_kind == Some(IoErrorKind::ConnectionAborted) || e.io_kind == Some(
            IoErrorKind::Interrupted) || e.io_kind == Some(IoErrorKind::InvalidData) || e.io_kind == Some(
            IoErrorKind::WouldBlock)),
{
    if let Some(kind) = e.io_kind {
        match kind {
            IoErrorKind::ConnectionAborted | IoErrorKind::Interrupted
            | IoErrorKind::InvalidData | IoErrorKind::WouldBlock => {
                return ControlFlow::Continue(());
            },
            _ => {},
        }
    }
    ControlFlow::Break(e)
}

/// The accept errors after which an accept loop goes on are exactly the I/O
/// errors of kinds `ConnectionAborted`, `Interrupted`, `InvalidData` and
/// `WouldBlock`; every other error ends it, among them a refused or reset
/// connection, a timeout and any error that is not an I/O error.
pub proof fn lemma_fatal_accept_errors(e: AnyError)
    ensures
        !accept_error_is_fatal(e) <==> (e.io_kind == Some(IoErrorKind::ConnectionAborted) || e.io_kind
            == Some(IoErrorKind::Interrupted) || e.io_kind == Some(IoErrorKind::InvalidData) || e.io_kind
            == Some(IoErrorKind::WouldBlock)),
        e.io_kind == Some(IoErrorKind::ConnectionReset) ==> accept_error_is_fatal(e),
        e.io_kind == Some(IoErrorKind::ConnectionRefused) ==> accept_error_is_fatal(e),
        e.io_kind.is_none() ==> accept_error_is_fatal(e),
{
}

/// An I/O error of kind `Other` with the message of `error`.
pub open spec fn as_io_other(error: AnyError) -> AnyError {
    AnyError { io_kind: Some(IoErrorKind::Other), message: error.message }
}

/// Wraps any error into an I/O error of kind `Other` with the same message.
pub fn io_other(error: AnyError) -> (res: AnyError)
    ensures
        res == as_io_other(error),
{
    AnyError { io_kind: Some(IoErrorKind::Other), message: error.message }
}

/// The kinds of errors that originate from the server.
#[derive(Clone, Copy, Debug, PartialEq, Eq, Structural)]
pub enum Kind {
    Transport,
}

/// What an [`Error`] holds: its kind and the error that caused it, if any.
pub struct ErrorView {
    pub kind: Kind,
    pub source: Option<AnyError>,
}

/// The name of a kind, as its debug text shows it.
pub open spec fn kind_name(kind: Kind) -> Seq<char> {
    match kind {
        Kind::Transport => "Transport"@,
    }
}

/// The text that `<str as Debug>::fmt` writes for `s`: `s` in double quotes,
/// with quotes, backslashes, control and unprintable characters escaped.
pub uninterp spec fn str_debug(s: Seq<char>) -> Seq<char>;

/// Formats `s` with `{:?}`, the debug text of a string.
#[verifier::external_body]
fn debug_quoted(s: &str) -> (res: String)
    ensures
        res@ == str_debug(s@),
{
    format!("{:?}", s)
}

/// The name of an I/O error kind, as `std::io::ErrorKind`'s debug text shows
/// it.
pub open spec fn io_kind_name(kind: IoErrorKind) -> Seq<char> {
    match kind {
        IoErrorKind::NotFound => "NotFound"@,
        IoErrorKind::PermissionDenied => "PermissionDenied"@,
        IoErrorKind::ConnectionRefused => "ConnectionRefused"@,
        IoErrorKind::ConnectionReset => "ConnectionReset"@,
        IoErrorKind::ConnectionAborted => "ConnectionAborted"@,
        IoErrorKind::WouldBlock => "WouldBlock"@,
        IoErrorKind::InvalidInput => "InvalidInput"@,
        IoErrorKind::InvalidData => "InvalidData"@,
        IoErrorKind::TimedOut => "TimedOut"@,
        IoErrorKind::Interrupted => "Interrupted"@,
        IoErrorKind::UnexpectedEof => "UnexpectedEof"@,
        IoErrorKind::Other => "Other"@,
    }
}

/// The name of an I/O error kind, as its debug text shows it.
pub fn io_kind_str(kind: IoErrorKind) -> (res: &'static str)
    ensures
        res@ == io_kind_name(kind),
{
    match kind {
        IoErrorKind::NotFound => "NotFound",
        IoErrorKind::PermissionDenied => "PermissionDenied",
        IoErrorKind::ConnectionRefused => "ConnectionRefused",
        IoErrorKind::ConnectionReset => "ConnectionReset",
        IoErrorKind::ConnectionAborted => "ConnectionAborted",
        IoErrorKind::WouldBlock => "WouldBlock",
        IoErrorKind::InvalidInput => "InvalidInput",
        IoErrorKind::InvalidData => "InvalidData",
        IoErrorKind::TimedOut => "TimedOut",
        IoErrorKind::Interrupted => "Interrupted",
        IoErrorKind::UnexpectedEof => "UnexpectedEof",
        IoErrorKind::Other => "Other",
    }
}

/// The debug text of a source error, as an error made from its message shows
/// it: the quoted message, or, for an I/O error, the kind and the quoted
/// message of the error that `std::io::Error::new` makes of them.
pub open spec fn source_debug_text(e: AnyError) -> Seq<char> {
    match e.io_kind {
        None => str_debug(e.message@),
        Some(kind) => "Custom { kind: "@ + io_kind_name(kind) + ", error: "@ + str_debug(e.message@)
            + " }"@,
    }
}

/// The debug text of an error: the type's name, then in brackets the kind and,
/// when there is a source, the source's debug text.
pub open spec fn debug_text(e: ErrorView) -> Seq<char> {
    match e.source {
        None => "tonic::transport::Error("@ + kind_name(e.kind) + ")"@,
        Some(s) => "tonic::transport::Error("@ + kind_name(e.kind) + ", "@ + source_debug_text(s) + ")"@,
    }
}

/// An error that originates from the server.
pub struct Error {
    kind: Kind,
    source: Option<AnyError>,
}

impl View for Error {
    type V = ErrorView;

    closed spec fn view(&self) -> ErrorView {
        ErrorView { kind: self.kind, source: self.source }
    }
}

impl Error {
    /// Creates an error of the given kind, without a source.
    pub fn new(kind: Kind) -> (res: Error)
        ensures
            res@.kind == kind,
            res@.source.is_none(),
    {
        Error { kind, source: None }
    }

    /// Attaches a source error, replacing any earlier one.
    pub fn with(self, source: AnyError) -> (res: Error)
        ensures
            res@.kind == self@.kind,
            res@.source == Some(source),
    {
        Error { kind: self.kind, source: Some(source) }
    }

    /// A transport error caused by `source`.
    pub fn from_source(source: AnyError) -> (res: Error)
        ensures
            res@.kind == Kind::Transport,
            res@.source == Some(source),
    {
        Error::new(Kind::Transport).with(source)
    }

    /// The kind of this error.
    pub fn kind(&self) -> (res: Kind)
        ensures
            res == self@.kind,
    {
        self.kind
    }

    /// The error that caused this one, if any.
    pub fn source(&self) -> (res: Option<&AnyError>)
        ensures
            match self@.source {
                Some(s) => res == Some(&s),
                None => res.is_none(),
            },
    {
        match &self.source {
            Some(s) => Some(s),
            None => None,
        }
    }

    /// A short description of the error.
    pub fn description(&self) -> (res: &str)
        ensures
            res@ == "transport error"@,
    {
        match self.kind {
            Kind::Transport => "transport error",
        }
    }

    /// The description of the error, as its display text.
    pub fn to_string(&self) -> (res: String)
        ensures
            res@ == "transport error"@,
    {
        self.description().to_string()
    }

    /// The debug text of the error: the kind and, when there is one, the
    /// debug text of the source.
    pub fn debug_string(&self) -> (res: String)
        ensures
            res@ == debug_text(self@),
    {
        let mut text = "tonic::transport::Error(".to_string();
        match self.kind {
            Kind::Transport => text.append("Transport"),
        }
        match &self.source {
            Some(source) => {
                text.append(", ");
                let quoted = debug_quoted(source.message.as_str());
                match source.io_kind {
                    None => text.append(quoted.as_str()),
                    Some(kind) => {
                        text.append("Custom { kind: ");
                        text.append(io_kind_str(kind));
                        text.append(", error: ");
                        text.append(quoted.as_str());
                        text.append(" }");
                    },
                }
                text.append(")");
            },
            None => text.append(")"),
        }
        text
    }
}

} // verus!
