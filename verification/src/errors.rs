//! The unified error taxonomy, and the translation of low-level failures
//! into it.
//!
//! Every fallible boundary call is routed through one of the translation
//! functions here, so that callers only ever see an [`SshError`].

use vstd::prelude::*;
use vstd::string::*;

verus! {

/// The closed set of error kinds that the library surfaces.
#[derive(Clone, Copy, Debug, PartialEq, Eq, Structural)]
pub enum SshErrorKind {
    /// Address resolution, TCP connection, timeout, or connection refused.
    Connect,
    /// A protocol failure reported by the session layer of the transport.
    SessionProtocol,
    /// A protocol failure reported by the SFTP subsystem of the transport.
    SftpProtocol,
    /// A path that does not exist on the remote server.
    NotFound,
    /// A path that already exists on the remote server.
    AlreadyExists,
    /// The remote server denied access.
    PermissionDenied,
    /// A malformed argument, such as an unrecognized file mode string.
    InvalidArgument,
    /// An operation that needs a live session was called without one.
    NotConnected,
    /// An operation that needs an open SFTP subsystem was called on a
    /// closed one.
    NotOpen,
    /// Any other input/output failure.
    GenericIo,
}

/// One error surfaced by the library: a kind from the closed taxonomy and a
/// human-readable message.
#[derive(Clone, Debug)]
pub struct SshError {
    pub kind: SshErrorKind,
    pub message: String,
}

impl SshError {
    /// Builds an error from a kind and a message.
    pub fn new(kind: SshErrorKind, message: String) -> (e: SshError)
        ensures
            e.kind == kind,
            e.message@ == message@,
    {
        SshError { kind, message }
    }

    /// The error for a failure while establishing the transport connection:
    /// address resolution, the TCP connection itself, its timeout, or a
    /// refusal all surface as connect errors.
    pub fn connect_failed(message: String) -> (e: SshError)
        ensures
            e.kind == SshErrorKind::Connect,
            e.message@ == message@,
    {
        SshError { kind: SshErrorKind::Connect, message }
    }

    /// The error returned when a session operation is attempted without a
    /// live session.
    pub fn not_connected() -> (e: SshError)
        ensures
            e.kind == SshErrorKind::NotConnected,
            e.message@ == "no active session"@,
    {
        SshError { kind: SshErrorKind::NotConnected, message: String::from_str("no active session") }
    }

    /// The error returned when an SFTP operation is attempted on a closed
    /// subsystem handle.
    pub fn not_open() -> (e: SshError)
        ensures
            e.kind == SshErrorKind::NotOpen,
            e.message@ == "SFTP subsystem not open"@,
    {
        SshError { kind: SshErrorKind::NotOpen, message: String::from_str("SFTP subsystem not open") }
    }
}

/// Whether a kind is one that translating a transport-engine failure can
/// produce.
pub open spec fn is_protocol_kind(k: SshErrorKind) -> bool {
    k == SshErrorKind::SessionProtocol || k == SshErrorKind::SftpProtocol
}

/// Whether a kind is one that translating an input/output failure can
/// produce.
pub open spec fn is_io_kind(k: SshErrorKind) -> bool {
    ||| k == SshErrorKind::NotFound
    ||| k == SshErrorKind::PermissionDenied
    ||| k == SshErrorKind::AlreadyExists
    ||| k == SshErrorKind::Connect
    ||| k == SshErrorKind::GenericIo
}

/// The image of a failure reported by the transport engine: either its
/// session layer or its SFTP subsystem produced the given message.
#[derive(Clone, Debug)]
pub enum TransportFailure {
    Session { message: String },
    Sftp { message: String },
}

/// The image of a local input/output failure: its classification and its
/// message.
#[derive(Clone, Copy, Debug, PartialEq, Eq, Structural)]
pub enum IoFailureKind {
    NotFound,
    PermissionDenied,
    AlreadyExists,
    ConnectionRefused,
    Other,
}

/// A local input/output failure as plain values.
#[derive(Clone, Debug)]
pub struct IoFailure {
    pub kind: IoFailureKind,
    pub message: String,
}

/// What [`translate_transport`] returns: a session-layer failure becomes a
/// session protocol error and an SFTP-subsystem failure becomes an SFTP
/// protocol error, each keeping its message.
pub open spec fn transport_translation(f: TransportFailure) -> SshError {
    match f {
        TransportFailure::Session { message } => SshError {
            kind: SshErrorKind::SessionProtocol,
            message,
        },
        TransportFailure::Sftp { message } => SshError { kind: SshErrorKind::SftpProtocol, message },
    }
}

/// What [`translate_io`] returns: each input/output classification maps to
/// its kind in the taxonomy, with everything unclassified becoming a generic
/// input/output error; the message is kept.
pub open spec fn io_translation(f: IoFailure) -> SshError {
    SshError {
        kind: match f.kind {
            IoFailureKind::NotFound => SshErrorKind::NotFound,
            IoFailureKind::PermissionDenied => SshErrorKind::PermissionDenied,
            IoFailureKind::AlreadyExists => SshErrorKind::AlreadyExists,
            IoFailureKind::ConnectionRefused => SshErrorKind::Connect,
            IoFailureKind::Other => SshErrorKind::GenericIo,
        },
        message: f.message,
    }
}

/// Translates a transport-engine failure into the taxonomy.
pub fn translate_transport(f: TransportFailure) -> (e: SshError)
    ensures
        e == transport_translation(f),
{
    match f {
        TransportFailure::Session { message } => SshError {
            kind: SshErrorKind::SessionProtocol,
            message,
        },
        TransportFailure::Sftp { message } => SshError { kind: SshErrorKind::SftpProtocol, message },
    }
}

/// Translates a local input/output failure into the taxonomy.
pub fn translate_io(f: IoFailure) -> (e: SshError)
    ensures
        e == io_translation(f),
{
    let kind = match f.kind {
        IoFailureKind::NotFound => SshErrorKind::NotFound,
        IoFailureKind::PermissionDenied => SshErrorKind::PermissionDenied,
        IoFailureKind::AlreadyExists => SshErrorKind::AlreadyExists,
        IoFailureKind::ConnectionRefused => SshErrorKind::Connect,
        IoFailureKind::Other => SshErrorKind::GenericIo,
    };
    SshError { kind, message: f.message }
}

} // verus!
