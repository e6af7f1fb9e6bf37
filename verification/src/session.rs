//! The top-level client: owns at most one live session and orchestrates
//! connect, command execution, SFTP, and teardown.
//!
//! The session handle moves Unset → Connected on a successful connect and
//! back to Unset on close; a handle is never reused after close. A
//! successful connect stores the new session, replacing and discarding any
//! prior one; a failed connect leaves the client exactly as it was.

use crate::auth::{authenticate, AuthMethods};
use crate::command::ExecOutput;
use crate::errors::{SshError, SshErrorKind};
use crate::sftp::SFTPClient;
use crate::transport::{
    channel_exec, channel_stderr_stream, channel_stream, session_handshake, session_open_channel,
    session_open_sftp, session_set_timeout,
};
use vstd::prelude::*;

verus! {

/// The default port of the remote-shell protocol.
pub const DEFAULT_PORT: u16 = 22;

/// The default timeout, in seconds, for establishing the transport
/// connection.
pub const DEFAULT_TIMEOUT: u32 = 30;

/// The top-level client, owning at most one live session.
pub struct SSHClient {
    sess: Option<ssh2::Session>,
}

impl SSHClient {
    /// Whether the client holds a live session.
    pub closed spec fn connected(&self) -> bool {
        self.sess is Some
    }

    /// Creates a new client with no session.
    pub fn new() -> (c: SSHClient)
        ensures
            !c.connected(),
    {
        SSHClient { sess: None }
    }

    /// Establishes the session over an engine transport that is already
    /// bound to its network stream: sets the engine's protocol-level
    /// timeout from the given connect timeout, performs the protocol
    /// handshake, and runs the credential fallback (see
    /// [`crate::auth::authenticate`]). On success the session is stored,
    /// replacing and discarding any prior one; on failure the client is
    /// left exactly as it was.
    pub fn connect(
        &mut self,
        transport: ssh2::Session,
        username: &str,
        auth: &AuthMethods,
        timeout_seconds: u32,
    ) -> (r: Result<(), SshError>)
        ensures
            r is Ok ==> final(self).connected(),
            r is Err ==> *final(self) == *old(self),
            r matches Err(e) ==> crate::errors::is_protocol_kind(e.kind),
    {
        let mut transport = transport;
        let timeout_ms = match timeout_seconds.checked_mul(1000) {
            Some(ms) => ms,
            None => u32::MAX,
        };
        session_set_timeout(&transport, timeout_ms);
        if let Err(f) = session_handshake(&mut transport) {
            return Err(crate::errors::translate_transport(f));
        }
        match authenticate(&transport, username, auth) {
            Ok(()) => {
                self.sess = Some(transport);
                Ok(())
            },
            Err(e) => Err(e),
        }
    }

    /// Executes a command over a new channel of the live session and wires
    /// one input view and two output views (stdout, and the channel's
    /// dedicated stderr stream) into the returned handle, each
    /// independently consumable. Without a live session this fails with a
    /// not-connected error.
    pub fn exec_command(&self, command: String) -> (r: Result<ExecOutput, SshError>)
        ensures
            !self.connected() ==> (r matches Err(e) && e.kind == SshErrorKind::NotConnected),
            r matches Ok(out) ==> out.channel_available() && out.stdin_available()
                && out.stdout_available() && out.stderr_available(),
            self.connected() ==> (r matches Err(e) ==> crate::errors::is_protocol_kind(e.kind)),
    {
        match &self.sess {
            Some(sess) => {
                let mut chan = match session_open_channel(sess) {
                    Ok(chan) => chan,
                    Err(f) => {
                        return Err(crate::errors::translate_transport(f));
                    },
                };
                if let Err(f) = channel_exec(&mut chan, command.as_str()) {
                    return Err(crate::errors::translate_transport(f));
                }
                let stdin = channel_stream(&chan, 0);
                let stdout = channel_stream(&chan, 0);
                let stderr = channel_stderr_stream(&chan);
                Ok(ExecOutput::new_live(chan, stdin, stdout, stderr))
            },
            None => Err(SshError::not_connected()),
        }
    }

    /// Initializes the SFTP subsystem over the live session; the returned
    /// client starts with no working directory set. Without a live session
    /// this fails with a not-connected error.
    pub fn open_sftp(&self) -> (r: Result<SFTPClient, SshError>)
        ensures
            !self.connected() ==> (r matches Err(e) && e.kind == SshErrorKind::NotConnected),
            r matches Ok(client) ==> client.is_open_spec() && client.cwd_spec() is None,
            self.connected() ==> (r matches Err(e) ==> crate::errors::is_protocol_kind(e.kind)),
    {
        match &self.sess {
            Some(sess) => match session_open_sftp(sess) {
                Ok(subsystem) => Ok(SFTPClient::from_subsystem(subsystem)),
                Err(f) => Err(crate::errors::translate_transport(f)),
            },
            None => Err(SshError::not_connected()),
        }
    }

    /// Releases the live session; an idempotent no-op when there is none.
    pub fn close(&mut self)
        ensures
            !final(self).connected(),
    {
        self.sess.take();
    }
}

} // verus!
