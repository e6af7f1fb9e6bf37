//! The trusted boundary to the transport/cryptographic engine.
//!
//! The engine performs the wire protocol, key exchange, and encryption; this
//! module declares its handle types and wraps each of its calls that the
//! library makes. Every outcome that depends on the network or the remote
//! server is opaque here: the wrappers promise nothing about it, and the
//! verified callers state what holds of their own state whatever comes back.

use crate::errors::{IoFailure, IoFailureKind, TransportFailure};
use std::io::{Read, Write};
use vstd::prelude::*;

verus! {

#[verifier::external_type_specification]
#[verifier::external_body]
pub struct ExSession(ssh2::Session);

#[verifier::external_type_specification]
#[verifier::external_body]
pub struct ExChannel(ssh2::Channel);

#[verifier::external_type_specification]
#[verifier::external_body]
pub struct ExStream(ssh2::Stream);

#[verifier::external_type_specification]
#[verifier::external_body]
pub struct ExSftp(ssh2::Sftp);

#[verifier::external_type_specification]
#[verifier::external_body]
pub struct ExFile(ssh2::File);

#[verifier::external_type_specification]
#[verifier::external_body]
pub struct ExError(ssh2::Error);

#[verifier::external_type_specification]
#[verifier::external_body]
pub struct ExIoError(std::io::Error);

/// Relies on ssh2::Error::code and ssh2::Error::message: an engine error
/// originates either in the session layer or in the SFTP subsystem, and
/// carries a message.
#[verifier::external_body]
pub(crate) fn transport_failure_of(e: ssh2::Error) -> TransportFailure {
    let message = e.message().to_string();
    match e.code() {
        ssh2::ErrorCode::Session(_) => TransportFailure::Session { message },
        ssh2::ErrorCode::SFTP(_) => TransportFailure::Sftp { message },
    }
}

/// Relies on std::io::Error::kind and its Display: classifies a local
/// input/output failure and keeps its message.
#[verifier::external_body]
pub(crate) fn io_failure_of(e: std::io::Error) -> IoFailure {
    let kind = match e.kind() {
        std::io::ErrorKind::NotFound => IoFailureKind::NotFound,
        std::io::ErrorKind::PermissionDenied => IoFailureKind::PermissionDenied,
        std::io::ErrorKind::AlreadyExists => IoFailureKind::AlreadyExists,
        std::io::ErrorKind::ConnectionRefused => IoFailureKind::ConnectionRefused,
        _ => IoFailureKind::Other,
    };
    IoFailure { kind, message: e.to_string() }
}

/// Relies on ssh2::Session::set_timeout: sets the engine's timeout, in
/// milliseconds, for blocking calls on this session.
#[verifier::external_body]
pub(crate) fn session_set_timeout(sess: &ssh2::Session, timeout_ms: u32) {
    sess.set_timeout(timeout_ms);
}

/// Relies on ssh2::Session::handshake: performs the protocol handshake over
/// the session's transport; the outcome depends on the peer.
#[verifier::external_body]
pub(crate) fn session_handshake(sess: &mut ssh2::Session) -> Result<(), TransportFailure> {
    match sess.handshake() {
        Ok(()) => Ok(()),
        Err(e) => Err(transport_failure_of(e)),
    }
}

/// Relies on ssh2::Session::userauth_password: attempts password
/// authentication; the outcome depends on the server.
#[verifier::external_body]
pub(crate) fn session_auth_password(sess: &ssh2::Session, username: &str, password: &str) -> Result<
    (),
    TransportFailure,
> {
    match sess.userauth_password(username, password) {
        Ok(()) => Ok(()),
        Err(e) => Err(transport_failure_of(e)),
    }
}

/// Relies on ssh2::Session::userauth_pubkey_file: attempts public-key
/// authentication with a private-key file on disk and an optional
/// passphrase; the outcome depends on the key file and the server.
#[verifier::external_body]
pub(crate) fn session_auth_pubkey_file(
    sess: &ssh2::Session,
    username: &str,
    private_key: &str,
    passphrase: Option<&str>,
) -> Result<(), TransportFailure> {
    match sess.userauth_pubkey_file(username, None, std::path::Path::new(private_key), passphrase) {
        Ok(()) => Ok(()),
        Err(e) => Err(transport_failure_of(e)),
    }
}

/// Relies on ssh2::Session::channel_session: opens a new session-based
/// channel, multiplexed over this session.
#[verifier::external_body]
pub(crate) fn session_open_channel(sess: &ssh2::Session) -> Result<ssh2::Channel, TransportFailure> {
    match sess.channel_session() {
        Ok(chan) => Ok(chan),
        Err(e) => Err(transport_failure_of(e)),
    }
}

/// Relies on ssh2::Session::sftp: opens a channel and initializes the SFTP
/// subsystem over it.
#[verifier::external_body]
pub(crate) fn session_open_sftp(sess: &ssh2::Session) -> Result<ssh2::Sftp, TransportFailure> {
    match sess.sftp() {
        Ok(sftp) => Ok(sftp),
        Err(e) => Err(transport_failure_of(e)),
    }
}

/// Relies on ssh2::Channel::exec: requests that the remote host execute the
/// command on this channel.
#[verifier::external_body]
pub(crate) fn channel_exec(chan: &mut ssh2::Channel, command: &str) -> Result<
    (),
    TransportFailure,
> {
    match chan.exec(command) {
        Ok(()) => Ok(()),
        Err(e) => Err(transport_failure_of(e)),
    }
}

/// Relies on ssh2::Channel::stream: a readable and writable view of the
/// channel's substream with the given identifier (0 carries the command's
/// standard input and output).
#[verifier::external_body]
pub(crate) fn channel_stream(chan: &ssh2::Channel, stream_id: i32) -> ssh2::Stream {
    chan.stream(stream_id)
}

/// Relies on ssh2::Channel::stderr: a view of the channel's dedicated
/// stderr extended-data substream.
#[verifier::external_body]
pub(crate) fn channel_stderr_stream(chan: &ssh2::Channel) -> ssh2::Stream {
    chan.stderr()
}

/// Relies on ssh2::Channel::send_eof: signals end-of-input on the channel,
/// so the remote process observes closed input.
#[verifier::external_body]
pub(crate) fn channel_send_eof(chan: &mut ssh2::Channel) -> Result<(), TransportFailure> {
    match chan.send_eof() {
        Ok(()) => Ok(()),
        Err(e) => Err(transport_failure_of(e)),
    }
}

/// Relies on std::io::Read::read_to_string through ssh2's Read impl for
/// Channel: drains the channel's standard-output data to end-of-stream.
#[verifier::external_body]
pub(crate) fn channel_read_to_string(chan: &mut ssh2::Channel) -> Result<String, IoFailure> {
    let mut buf = String::new();
    match chan.read_to_string(&mut buf) {
        Ok(_) => Ok(buf),
        Err(e) => Err(io_failure_of(e)),
    }
}

/// Relies on ssh2::Channel::wait_close: blocks until the remote end closes
/// the channel.
#[verifier::external_body]
pub(crate) fn channel_wait_close(chan: &mut ssh2::Channel) -> Result<(), TransportFailure> {
    match chan.wait_close() {
        Ok(()) => Ok(()),
        Err(e) => Err(transport_failure_of(e)),
    }
}

/// Relies on ssh2::Channel::exit_status: the exit code the remote process
/// reported on this channel.
#[verifier::external_body]
pub(crate) fn channel_exit_status(chan: &ssh2::Channel) -> Result<i32, TransportFailure> {
    match chan.exit_status() {
        Ok(status) => Ok(status),
        Err(e) => Err(transport_failure_of(e)),
    }
}

/// Relies on ssh2::Channel::close: requests that the channel be closed.
#[verifier::external_body]
pub(crate) fn channel_close(chan: &mut ssh2::Channel) -> Result<(), TransportFailure> {
    match chan.close() {
        Ok(()) => Ok(()),
        Err(e) => Err(transport_failure_of(e)),
    }
}

/// Relies on std::io::Write::write_all through ssh2's Write impl for
/// Stream: writes all the given bytes to the substream.
#[verifier::external_body]
pub(crate) fn stream_write_all(stream: &mut ssh2::Stream, data: &str) -> Result<(), IoFailure> {
    match stream.write_all(data.as_bytes()) {
        Ok(()) => Ok(()),
        Err(e) => Err(io_failure_of(e)),
    }
}

/// Relies on std::io::Write::flush through ssh2's Write impl for Stream.
#[verifier::external_body]
pub(crate) fn stream_flush(stream: &mut ssh2::Stream) -> Result<(), IoFailure> {
    match stream.flush() {
        Ok(()) => Ok(()),
        Err(e) => Err(io_failure_of(e)),
    }
}

/// Relies on std::io::Read::read_to_string through ssh2's Read impl for
/// Stream: drains the substream to end-of-stream.
#[verifier::external_body]
pub(crate) fn stream_read_to_string(stream: &mut ssh2::Stream) -> Result<String, IoFailure> {
    let mut buf = String::new();
    match stream.read_to_string(&mut buf) {
        Ok(_) => Ok(buf),
        Err(e) => Err(io_failure_of(e)),
    }
}

/// Relies on ssh2::Sftp::opendir: succeeds exactly when the path can be
/// opened as a directory on the remote server; the handle itself is
/// discarded, so this serves as an existence probe.
#[verifier::external_body]
pub(crate) fn sftp_probe_dir(sftp: &ssh2::Sftp, path: &str) -> Result<(), TransportFailure> {
    match sftp.opendir(std::path::Path::new(path)) {
        Ok(_) => Ok(()),
        Err(e) => Err(transport_failure_of(e)),
    }
}

/// Relies on ssh2::Sftp::mkdir: creates a remote directory with the given
/// permission mode.
#[verifier::external_body]
pub(crate) fn sftp_mkdir(sftp: &ssh2::Sftp, path: &str, mode: i32) -> Result<
    (),
    TransportFailure,
> {
    match sftp.mkdir(std::path::Path::new(path), mode) {
        Ok(()) => Ok(()),
        Err(e) => Err(transport_failure_of(e)),
    }
}

/// Relies on ssh2::Sftp::unlink: removes a remote file.
#[verifier::external_body]
pub(crate) fn sftp_unlink(sftp: &ssh2::Sftp, path: &str) -> Result<(), TransportFailure> {
    match sftp.unlink(std::path::Path::new(path)) {
        Ok(()) => Ok(()),
        Err(e) => Err(transport_failure_of(e)),
    }
}

/// Relies on ssh2::Sftp::rmdir: removes a remote directory.
#[verifier::external_body]
pub(crate) fn sftp_rmdir(sftp: &ssh2::Sftp, path: &str) -> Result<(), TransportFailure> {
    match sftp.rmdir(std::path::Path::new(path)) {
        Ok(()) => Ok(()),
        Err(e) => Err(transport_failure_of(e)),
    }
}

/// Relies on ssh2::Sftp::open_mode: opens a remote file with the given open
/// flag bits (as the engine defines them) and creation permission mode.
#[verifier::external_body]
pub(crate) fn sftp_open_with_flags(sftp: &ssh2::Sftp, path: &str, flags: u64, mode: i32) -> Result<
    ssh2::File,
    TransportFailure,
> {
    let open_flags = ssh2::OpenFlags::from_bits_truncate(flags);
    match sftp.open_mode(std::path::Path::new(path), open_flags, mode, ssh2::OpenType::File) {
        Ok(file) => Ok(file),
        Err(e) => Err(transport_failure_of(e)),
    }
}

/// Relies on ssh2::Sftp::open: opens a remote file for reading.
#[verifier::external_body]
pub(crate) fn sftp_open_read(sftp: &ssh2::Sftp, path: &str) -> Result<
    ssh2::File,
    TransportFailure,
> {
    match sftp.open(std::path::Path::new(path)) {
        Ok(file) => Ok(file),
        Err(e) => Err(transport_failure_of(e)),
    }
}

/// Relies on ssh2::Sftp::create: creates (or truncates) a remote file in
/// write-only mode.
#[verifier::external_body]
pub(crate) fn sftp_create(sftp: &ssh2::Sftp, path: &str) -> Result<ssh2::File, TransportFailure> {
    match sftp.create(std::path::Path::new(path)) {
        Ok(file) => Ok(file),
        Err(e) => Err(transport_failure_of(e)),
    }
}

/// Relies on std::io::Read::read_to_string through ssh2's Read impl for
/// File: drains the remote file to end-of-file.
#[verifier::external_body]
pub(crate) fn file_read_to_string(file: &mut ssh2::File) -> Result<String, IoFailure> {
    let mut buf = String::new();
    match file.read_to_string(&mut buf) {
        Ok(_) => Ok(buf),
        Err(e) => Err(io_failure_of(e)),
    }
}

/// Relies on std::io::Write::write_all through ssh2's Write impl for File:
/// writes all the given bytes to the remote file.
#[verifier::external_body]
pub(crate) fn file_write_all(file: &mut ssh2::File, data: &str) -> Result<(), IoFailure> {
    match file.write_all(data.as_bytes()) {
        Ok(()) => Ok(()),
        Err(e) => Err(io_failure_of(e)),
    }
}

/// Relies on std::io::Write::flush through ssh2's Write impl for File.
#[verifier::external_body]
pub(crate) fn file_flush(file: &mut ssh2::File) -> Result<(), IoFailure> {
    match file.flush() {
        Ok(()) => Ok(()),
        Err(e) => Err(io_failure_of(e)),
    }
}

} // verus!
