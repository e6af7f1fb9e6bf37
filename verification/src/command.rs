//! One running remote command: a channel plus three independent stream
//! views (stdin, stdout, stderr).
//!
//! Each of the three streams and the channel itself is independently in
//! state Available or Consumed, and the transition to Consumed is one-way:
//! once a stream has been read or written it is never handed out again, a
//! consumed stdin silently discards further writes, consumed output streams
//! read as empty, and a consumed channel reports exit status 0. Every
//! close/consume operation is safe to invoke more than once.

use crate::errors::SshError;
use crate::transport::{
    channel_close, channel_exit_status, channel_read_to_string, channel_send_eof,
    channel_stderr_stream, channel_wait_close, stream_flush, stream_read_to_string,
    stream_write_all,
};
use vstd::prelude::*;

verus! {

/// The output of one remote command execution: the channel carrying it and
/// the three one-shot stream views over that channel.
pub struct ExecOutput {
    channel: Option<ssh2::Channel>,
    stdin: Option<ssh2::Stream>,
    stdout: Option<ssh2::Stream>,
    stderr: Option<ssh2::Stream>,
}

impl ExecOutput {
    /// Whether the channel is still available (not yet consumed by
    /// `exit_status` or `close`).
    pub closed spec fn channel_available(&self) -> bool {
        self.channel is Some
    }

    /// Whether the stdin view is still available (not yet consumed by
    /// `write_stdin` or `close`).
    pub closed spec fn stdin_available(&self) -> bool {
        self.stdin is Some
    }

    /// Whether the stdout view is still available (not yet consumed by
    /// `read_stdout` or `close`).
    pub closed spec fn stdout_available(&self) -> bool {
        self.stdout is Some
    }

    /// Whether the stderr view is still available (not yet consumed by
    /// `read_stderr` or `close`).
    pub closed spec fn stderr_available(&self) -> bool {
        self.stderr is Some
    }

    /// Wires a freshly opened channel and its three stream views into a
    /// handle whose resources are all available.
    pub(crate) fn new_live(
        channel: ssh2::Channel,
        stdin: ssh2::Stream,
        stdout: ssh2::Stream,
        stderr: ssh2::Stream,
    ) -> (out: ExecOutput)
        ensures
            out.channel_available(),
            out.stdin_available(),
            out.stdout_available(),
            out.stderr_available(),
    {
        ExecOutput { channel: Some(channel), stdin: Some(stdin), stdout: Some(stdout), stderr: Some(
            stderr,
        ) }
    }

    /// Writes the data to the stdin view, flushes it, signals end-of-input
    /// on the channel, and consumes the stdin view. Once stdin is consumed,
    /// further calls silently discard the data and succeed.
    pub fn write_stdin(&mut self, data: String) -> (r: Result<(), SshError>)
        ensures
            !old(self).stdin_available() ==> r is Ok && *final(self) == *old(self),
            old(self).stdin_available() && !old(self).channel_available() ==> r is Ok,
            r matches Err(e) ==> crate::errors::is_io_kind(e.kind) || crate::errors::is_protocol_kind(e.kind),
            !final(self).stdin_available(),
            final(self).channel_available() == old(self).channel_available(),
            final(self).stdout_available() == old(self).stdout_available(),
            final(self).stderr_available() == old(self).stderr_available(),
    {
        if let Some(mut stdin) = self.stdin.take() {
            if let Some(channel) = self.channel.as_mut() {
                if let Err(f) = stream_write_all(&mut stdin, data.as_str()) {
                    return Err(crate::errors::translate_io(f));
                }
                if let Err(f) = stream_flush(&mut stdin) {
                    return Err(crate::errors::translate_io(f));
                }
                if let Err(f) = channel_send_eof(channel) {
                    return Err(crate::errors::translate_transport(f));
                }
            }
        }
        Ok(())
    }

    /// Reads the stdout view to completion and consumes it, returning the
    /// accumulated text. Once stdout is consumed, further calls return an
    /// empty string, not an error.
    pub fn read_stdout(&mut self) -> (r: Result<String, SshError>)
        ensures
            !old(self).stdout_available() ==> (r matches Ok(s) && s@ == Seq::<char>::empty())
                && *final(self) == *old(self),
            r matches Err(e) ==> crate::errors::is_io_kind(e.kind),
            !final(self).stdout_available(),
            final(self).channel_available() == old(self).channel_available(),
            final(self).stdin_available() == old(self).stdin_available(),
            final(self).stderr_available() == old(self).stderr_available(),
    {
        if let Some(mut stdout) = self.stdout.take() {
            match stream_read_to_string(&mut stdout) {
                Ok(text) => Ok(text),
                Err(f) => Err(crate::errors::translate_io(f)),
            }
        } else {
            Ok(String::new())
        }
    }

    /// Reads the stderr view to completion and consumes it, returning the
    /// accumulated text. Once stderr is consumed, further calls return an
    /// empty string, not an error.
    pub fn read_stderr(&mut self) -> (r: Result<String, SshError>)
        ensures
            !old(self).stderr_available() ==> (r matches Ok(s) && s@ == Seq::<char>::empty())
                && *final(self) == *old(self),
            r matches Err(e) ==> crate::errors::is_io_kind(e.kind),
            !final(self).stderr_available(),
            final(self).channel_available() == old(self).channel_available(),
            final(self).stdin_available() == old(self).stdin_available(),
            final(self).stdout_available() == old(self).stdout_available(),
    {
        if let Some(mut stderr) = self.stderr.take() {
            match stream_read_to_string(&mut stderr) {
                Ok(text) => Ok(text),
                Err(f) => Err(crate::errors::translate_io(f)),
            }
        } else {
            Ok(String::new())
        }
    }

    /// Retrieves the exit status of the command and consumes the channel.
    ///
    /// While the channel is available, this first drains any remaining
    /// stdout and stderr content — preventing a deadlock where the remote
    /// side blocks on a full unread output buffer while the caller blocks
    /// waiting for channel closure — then waits for the remote-side close
    /// and reads the numeric exit code. Once the channel is consumed,
    /// further calls return 0.
    pub fn exit_status(&mut self) -> (r: Result<i32, SshError>)
        ensures
            !old(self).channel_available() ==> (r matches Ok(code) && code == 0) && *final(self)
                == *old(self),
            r matches Err(e) ==> crate::errors::is_io_kind(e.kind) || crate::errors::is_protocol_kind(e.kind),
            !final(self).channel_available(),
            final(self).stdin_available() == old(self).stdin_available(),
            final(self).stdout_available() == old(self).stdout_available(),
            final(self).stderr_available() == old(self).stderr_available(),
    {
        if let Some(mut chan) = self.channel.take() {
            if let Err(f) = channel_read_to_string(&mut chan) {
                return Err(crate::errors::translate_io(f));
            }
            let mut stderr = channel_stderr_stream(&chan);
            if let Err(f) = stream_read_to_string(&mut stderr) {
                return Err(crate::errors::translate_io(f));
            }
            if let Err(f) = channel_wait_close(&mut chan) {
                return Err(crate::errors::translate_transport(f));
            }
            match channel_exit_status(&chan) {
                Ok(code) => Ok(code),
                Err(f) => Err(crate::errors::translate_transport(f)),
            }
        } else {
            Ok(0)
        }
    }

    /// Unconditionally discards the three stream views and, while the
    /// channel is available, closes it and consumes it. Idempotent: with
    /// the channel already consumed this does nothing and succeeds.
    pub fn close(&mut self) -> (r: Result<(), SshError>)
        ensures
            !old(self).channel_available() ==> r is Ok,
            r matches Err(e) ==> crate::errors::is_protocol_kind(e.kind),
            !final(self).channel_available(),
            !final(self).stdin_available(),
            !final(self).stdout_available(),
            !final(self).stderr_available(),
    {
        self.stdin.take();
        self.stdout.take();
        self.stderr.take();
        if let Some(mut channel) = self.channel.take() {
            if let Err(f) = channel_close(&mut channel) {
                return Err(crate::errors::translate_transport(f));
            }
        }
        Ok(())
    }
}

} // verus!
