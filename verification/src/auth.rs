//! Credentials and the priority-ordered authentication fallback.
//!
//! At most one password credential and one private-key credential are held.
//! The private-key credential is attempted first; on failure its error is
//! retained and the password credential is attempted; the first success
//! short-circuits the rest. When every attempted credential fails, the
//! surfaced error is that of the last attempted method — earlier failures
//! are discarded, not aggregated. With no credentials at all, authentication
//! is skipped and treated as success.

use crate::errors::SshError;
use vstd::prelude::*;

verus! {

/// Password-based authentication: the secret itself.
#[derive(Clone, Debug)]
pub struct PasswordAuth(pub String);

impl PasswordAuth {
    /// Creates a new password credential.
    pub fn new(password: String) -> (r: PasswordAuth)
        ensures
            r.0@ == password@,
    {
        PasswordAuth(password)
    }
}

/// Private-key-based authentication: the path to the private-key file and
/// an optional passphrase for it.
#[derive(Clone, Debug)]
pub struct PrivateKeyAuth {
    /// The path to the private-key file.
    pub private_key: String,
    /// The passphrase for the private-key file.
    pub passphrase: Option<String>,
}

impl PrivateKeyAuth {
    /// Creates a new private-key credential.
    pub fn new(private_key: String, passphrase: Option<String>) -> (r: PrivateKeyAuth)
        ensures
            r.private_key@ == private_key@,
            r.passphrase == passphrase,
    {
        PrivateKeyAuth { private_key, passphrase }
    }
}

/// The supported authentication methods: at most one credential of each
/// variant.
#[derive(Clone, Debug)]
pub struct AuthMethods {
    /// Password-based authentication method.
    pub password: Option<PasswordAuth>,
    /// Private-key-based authentication method.
    pub private_key: Option<PrivateKeyAuth>,
}

impl AuthMethods {
    /// Creates a new set of authentication methods.
    pub fn new(password: Option<PasswordAuth>, private_key: Option<PrivateKeyAuth>) -> (r:
        AuthMethods)
        ensures
            r.password == password,
            r.private_key == private_key,
    {
        AuthMethods { password, private_key }
    }
}

/// The outcome of the credential fallback, given the outcome of each
/// credential's attempt (`None` where the credential was absent): the
/// private-key attempt comes first and a success short-circuits; otherwise
/// the password attempt decides; with nothing attempted, authentication is
/// skipped and counts as success. When both attempts fail, the surfaced
/// error is the password attempt's — the last attempted — and the
/// private-key attempt's error is discarded.
pub open spec fn fallback_outcome(
    key_attempt: Option<Result<(), SshError>>,
    password_attempt: Option<Result<(), SshError>>,
) -> Result<(), SshError> {
    match key_attempt {
        Option::Some(Result::Ok(())) => Result::Ok(()),
        Option::Some(Result::Err(key_err)) => match password_attempt {
            Option::Some(outcome) => outcome,
            Option::None => Result::Err(key_err),
        },
        Option::None => match password_attempt {
            Option::Some(outcome) => outcome,
            Option::None => Result::Ok(()),
        },
    }
}

/// Resolves the recorded attempt outcomes to the surfaced result, as
/// [`fallback_outcome`] describes.
pub fn resolve_fallback(
    key_attempt: Option<Result<(), SshError>>,
    password_attempt: Option<Result<(), SshError>>,
) -> (r: Result<(), SshError>)
    ensures
        r == fallback_outcome(key_attempt, password_attempt),
{
    match key_attempt {
        Option::Some(Result::Ok(())) => Result::Ok(()),
        Option::Some(Result::Err(key_err)) => match password_attempt {
            Option::Some(outcome) => outcome,
            Option::None => Result::Err(key_err),
        },
        Option::None => match password_attempt {
            Option::Some(outcome) => outcome,
            Option::None => Result::Ok(()),
        },
    }
}

/// Attempts one private-key credential against the session; the outcome
/// depends on the key file and the server, and a failure is translated into
/// the taxonomy.
fn attempt_private_key(
    transport: &ssh2::Session,
    username: &str,
    key: &PrivateKeyAuth,
) -> (r: Result<(), SshError>)
    ensures
        r matches Err(e) ==> crate::errors::is_protocol_kind(e.kind),
{
    let outcome = match &key.passphrase {
        Some(passphrase) => crate::transport::session_auth_pubkey_file(
            transport,
            username,
            key.private_key.as_str(),
            Some(passphrase.as_str()),
        ),
        None => crate::transport::session_auth_pubkey_file(
            transport,
            username,
            key.private_key.as_str(),
            None,
        ),
    };
    match outcome {
        Ok(()) => Ok(()),
        Err(f) => Err(crate::errors::translate_transport(f)),
    }
}

/// Attempts one password credential against the session; the outcome
/// depends on the server, and a failure is translated into the taxonomy.
fn attempt_password(transport: &ssh2::Session, username: &str, password: &PasswordAuth) -> (r:
    Result<(), SshError>)
    ensures
        r matches Err(e) ==> crate::errors::is_protocol_kind(e.kind),
{
    match crate::transport::session_auth_password(transport, username, password.0.as_str()) {
        Ok(()) => Ok(()),
        Err(f) => Err(crate::errors::translate_transport(f)),
    }
}

/// Runs the credential fallback against a handshaken session: the
/// private-key credential is attempted first, a success short-circuits the
/// password attempt, and the surfaced result is resolved as
/// [`fallback_outcome`] describes. With no credentials, authentication is
/// skipped entirely and counts as success.
pub fn authenticate(transport: &ssh2::Session, username: &str, auth: &AuthMethods) -> (r: Result<
    (),
    SshError,
>)
    ensures
        auth.private_key is None && auth.password is None ==> r is Ok,
        r matches Err(e) ==> (auth.private_key is Some || auth.password is Some)
            && crate::errors::is_protocol_kind(e.kind),
{
    let key_attempt: Option<Result<(), SshError>> = match &auth.private_key {
        Some(key) => Some(attempt_private_key(transport, username, key)),
        None => None,
    };
    if let Some(Ok(())) = &key_attempt {
        return Ok(());
    }
    let password_attempt: Option<Result<(), SshError>> = match &auth.password {
        Some(password) => Some(attempt_password(transport, username, password)),
        None => None,
    };
    resolve_fallback(key_attempt, password_attempt)
}

/// A failing private-key credential together with a succeeding password
/// credential authenticates successfully.
pub proof fn lemma_password_rescues_failed_key(key_err: SshError)
    ensures
        fallback_outcome(Option::Some(Result::Err(key_err)), Option::Some(Result::Ok(())))
            == Result::<(), SshError>::Ok(()),
{
}

/// When both credentials are attempted and both fail, the surfaced error is
/// the password attempt's — the last attempted — not the private-key
/// attempt's.
pub proof fn lemma_last_error_surfaced(key_err: SshError, password_err: SshError)
    ensures
        fallback_outcome(
            Option::Some(Result::Err(key_err)),
            Option::Some(Result::Err(password_err)),
        ) == Result::<(), SshError>::Err(password_err),
{
}

/// With no credentials at all, authentication is skipped and counts as
/// success.
pub proof fn lemma_no_credentials_skips_authentication()
    ensures
        fallback_outcome(Option::None, Option::None) == Result::<(), SshError>::Ok(()),
{
}

} // verus!
