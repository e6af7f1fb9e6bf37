use russh::errors::SshErrorKind;
use russh::session::{SSHClient, DEFAULT_PORT, DEFAULT_TIMEOUT};

#[test]
fn exec_command_without_session_is_not_connected() {
    let client = SSHClient::new();
    match client.exec_command(String::from("echo hello")) {
        Ok(_) => panic!("exec_command succeeded without a session"),
        Err(err) => {
            assert_eq!(err.kind, SshErrorKind::NotConnected);
            assert_eq!(err.message, "no active session");
        }
    }
}

#[test]
fn open_sftp_without_session_is_not_connected() {
    let client = SSHClient::new();
    match client.open_sftp() {
        Ok(_) => panic!("open_sftp succeeded without a session"),
        Err(err) => assert_eq!(err.kind, SshErrorKind::NotConnected),
    }
}

#[test]
fn close_is_idempotent_on_session_client() {
    let mut client = SSHClient::new();
    client.close();
    client.close();
    match client.exec_command(String::from("true")) {
        Ok(_) => panic!("exec_command succeeded after close"),
        Err(err) => assert_eq!(err.kind, SshErrorKind::NotConnected),
    }
}

#[test]
fn defaults_match_the_protocol() {
    assert_eq!(DEFAULT_PORT, 22);
    assert_eq!(DEFAULT_TIMEOUT, 30);
}
