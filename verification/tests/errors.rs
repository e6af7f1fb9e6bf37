use russh::errors::{
    translate_io, translate_transport, IoFailure, IoFailureKind, SshError, SshErrorKind,
    TransportFailure,
};

#[test]
fn session_failure_becomes_session_protocol_error() {
    let e = translate_transport(TransportFailure::Session {
        message: String::from("kex failed"),
    });
    assert_eq!(e.kind, SshErrorKind::SessionProtocol);
    assert_eq!(e.message, "kex failed");
}

#[test]
fn sftp_failure_becomes_sftp_protocol_error() {
    let e = translate_transport(TransportFailure::Sftp {
        message: String::from("bad packet"),
    });
    assert_eq!(e.kind, SshErrorKind::SftpProtocol);
    assert_eq!(e.message, "bad packet");
}

#[test]
fn io_not_found_becomes_not_found() {
    let e = translate_io(IoFailure {
        kind: IoFailureKind::NotFound,
        message: String::from("missing"),
    });
    assert_eq!(e.kind, SshErrorKind::NotFound);
    assert_eq!(e.message, "missing");
}

#[test]
fn io_permission_denied_becomes_permission_denied() {
    let e = translate_io(IoFailure {
        kind: IoFailureKind::PermissionDenied,
        message: String::from("denied"),
    });
    assert_eq!(e.kind, SshErrorKind::PermissionDenied);
}

#[test]
fn io_already_exists_becomes_already_exists() {
    let e = translate_io(IoFailure {
        kind: IoFailureKind::AlreadyExists,
        message: String::from("exists"),
    });
    assert_eq!(e.kind, SshErrorKind::AlreadyExists);
}

#[test]
fn io_connection_refused_becomes_connect_error() {
    let e = translate_io(IoFailure {
        kind: IoFailureKind::ConnectionRefused,
        message: String::from("refused"),
    });
    assert_eq!(e.kind, SshErrorKind::Connect);
}

#[test]
fn other_io_failure_becomes_generic_io() {
    let e = translate_io(IoFailure {
        kind: IoFailureKind::Other,
        message: String::from("broken pipe"),
    });
    assert_eq!(e.kind, SshErrorKind::GenericIo);
}

#[test]
fn connect_phase_failures_are_connect_errors() {
    let e = SshError::connect_failed(String::from("connection timed out"));
    assert_eq!(e.kind, SshErrorKind::Connect);
    assert_eq!(e.message, "connection timed out");
}

#[test]
fn error_constructors_carry_kind_and_message() {
    let e = SshError::new(SshErrorKind::InvalidArgument, String::from("bad mode"));
    assert_eq!(e.kind, SshErrorKind::InvalidArgument);
    assert_eq!(e.message, "bad mode");

    let e = SshError::not_connected();
    assert_eq!(e.kind, SshErrorKind::NotConnected);
    assert_eq!(e.message, "no active session");

    let e = SshError::not_open();
    assert_eq!(e.kind, SshErrorKind::NotOpen);
    assert_eq!(e.message, "SFTP subsystem not open");
}
