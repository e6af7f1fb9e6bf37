use russh::auth::{resolve_fallback, AuthMethods, PasswordAuth, PrivateKeyAuth};
use russh::errors::{SshError, SshErrorKind};

fn key_error() -> SshError {
    SshError::new(
        SshErrorKind::SessionProtocol,
        String::from("key rejected"),
    )
}

fn password_error() -> SshError {
    SshError::new(
        SshErrorKind::SessionProtocol,
        String::from("password rejected"),
    )
}

#[test]
fn password_auth_holds_secret() {
    let p = PasswordAuth::new(String::from("hunter2"));
    assert_eq!(p.0, "hunter2");
}

#[test]
fn private_key_auth_holds_path_and_passphrase() {
    let k = PrivateKeyAuth::new(String::from("/home/me/.ssh/id"), Some(String::from("pp")));
    assert_eq!(k.private_key, "/home/me/.ssh/id");
    assert_eq!(k.passphrase.as_deref(), Some("pp"));

    let k = PrivateKeyAuth::new(String::from("/home/me/.ssh/id"), None);
    assert!(k.passphrase.is_none());
}

#[test]
fn auth_methods_holds_both_credentials() {
    let methods = AuthMethods::new(
        Some(PasswordAuth::new(String::from("hunter2"))),
        Some(PrivateKeyAuth::new(String::from("/k"), None)),
    );
    assert!(methods.password.is_some());
    assert!(methods.private_key.is_some());
}

#[test]
fn no_credentials_skips_authentication() {
    assert!(resolve_fallback(None, None).is_ok());
}

#[test]
fn key_success_short_circuits() {
    assert!(resolve_fallback(Some(Ok(())), None).is_ok());
    assert!(resolve_fallback(Some(Ok(())), Some(Err(password_error()))).is_ok());
}

#[test]
fn password_success_rescues_failed_key() {
    assert!(resolve_fallback(Some(Err(key_error())), Some(Ok(()))).is_ok());
}

#[test]
fn both_failures_surface_the_password_error() {
    let surfaced = resolve_fallback(Some(Err(key_error())), Some(Err(password_error())))
        .unwrap_err();
    assert_eq!(surfaced.kind, SshErrorKind::SessionProtocol);
    assert_eq!(surfaced.message, "password rejected");
}

#[test]
fn lone_failures_surface_their_own_error() {
    let surfaced = resolve_fallback(Some(Err(key_error())), None).unwrap_err();
    assert_eq!(surfaced.message, "key rejected");

    let surfaced = resolve_fallback(None, Some(Err(password_error()))).unwrap_err();
    assert_eq!(surfaced.message, "password rejected");
}

#[test]
fn lone_password_success_authenticates() {
    assert!(resolve_fallback(None, Some(Ok(()))).is_ok());
}
