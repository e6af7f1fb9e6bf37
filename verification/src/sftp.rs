//! The SFTP front end: remote filesystem operations with an emulated
//! working directory, and handles over open remote files.
//!
//! The remote protocol has no server-tracked working directory, so the
//! client keeps an optional absolute base path and composes every path onto
//! it (see [`crate::paths`]) before sending it. `chdir` probes that the
//! directory exists before committing; on probe failure the stored base
//! path is unchanged.

use crate::errors::{SshError, SshErrorKind};
use crate::paths::path_from_string;
use crate::transport::{
    file_flush, file_read_to_string, file_write_all, sftp_create, sftp_mkdir,
    sftp_open_with_flags, sftp_open_read, sftp_probe_dir, sftp_rmdir, sftp_unlink,
};
use vstd::prelude::*;
use vstd::string::*;

verus! {

/// The engine's bit for opening a file readable.
pub const FLAG_READ: u64 = 0x1;

/// The engine's bit for opening a file writable.
pub const FLAG_WRITE: u64 = 0x2;

/// The engine's bit for appending to a file.
pub const FLAG_APPEND: u64 = 0x4;

/// The engine's bit for creating a file that does not exist.
pub const FLAG_CREATE: u64 = 0x8;

/// The engine's bits for truncating a file on open; in the engine's
/// encoding truncation implies creation.
pub const FLAG_TRUNCATE: u64 = 0x18;

/// The permission bits given to files the engine creates on our behalf.
pub const CREATION_MODE: i32 = 0o644;

/// The default permission mode for newly created directories.
pub const DEFAULT_DIR_MODE: i32 = 511;

/// The translation of a POSIX-style mode string to the engine's open-flag
/// bits: `r` reads; `r+` reads and writes; `w` truncates and writes; `w+`
/// reads, writes and truncates; `a` creates and appends; `a+` creates,
/// appends, reads and writes. Anything else is unrecognized.
pub open spec fn mode_flags(mode: Seq<char>) -> Option<u64> {
    if mode.len() == 1 {
        if mode[0] == 'r' {
            Some(FLAG_READ)
        } else if mode[0] == 'w' {
            Some(FLAG_TRUNCATE | FLAG_WRITE)
        } else if mode[0] == 'a' {
            Some(FLAG_CREATE | FLAG_APPEND)
        } else {
            None
        }
    } else if mode.len() == 2 && mode[1] == '+' {
        if mode[0] == 'r' {
            Some(FLAG_READ | FLAG_WRITE)
        } else if mode[0] == 'w' {
            Some(FLAG_WRITE | FLAG_TRUNCATE | FLAG_READ)
        } else if mode[0] == 'a' {
            Some(FLAG_CREATE | FLAG_APPEND | FLAG_READ | FLAG_WRITE)
        } else {
            None
        }
    } else {
        None
    }
}

/// Translates a POSIX-style mode string to the engine's open-flag bits, as
/// [`mode_flags`] describes; `None` for an unrecognized mode.
pub fn flags_for_mode(mode: &str) -> (r: Option<u64>)
    ensures
        r == mode_flags(mode@),
{
    let len = mode.unicode_len();
    if len == 1 {
        let first = mode.get_char(0);
        if first == 'r' {
            Some(FLAG_READ)
        } else if first == 'w' {
            Some(FLAG_TRUNCATE | FLAG_WRITE)
        } else if first == 'a' {
            Some(FLAG_CREATE | FLAG_APPEND)
        } else {
            None
        }
    } else if len == 2 {
        if mode.get_char(1) != '+' {
            return None;
        }
        let first = mode.get_char(0);
        if first == 'r' {
            Some(FLAG_READ | FLAG_WRITE)
        } else if first == 'w' {
            Some(FLAG_WRITE | FLAG_TRUNCATE | FLAG_READ)
        } else if first == 'a' {
            Some(FLAG_CREATE | FLAG_APPEND | FLAG_READ | FLAG_WRITE)
        } else {
            None
        }
    } else {
        None
    }
}

/// The view of an optional string as an optional character sequence.
pub open spec fn opt_string_view(o: Option<String>) -> Option<Seq<char>> {
    match o {
        Option::Some(s) => Option::Some(s@),
        Option::None => Option::None,
    }
}

/// A file on the remote server: one open remote descriptor.
pub struct RemoteFile {
    remote: ssh2::File,
}

impl RemoteFile {
    /// Wraps an open remote descriptor.
    pub(crate) fn from_remote(remote: ssh2::File) -> RemoteFile {
        RemoteFile { remote }
    }

    /// Reads the file to end-of-file and returns its contents; no internal
    /// buffering or caching.
    pub fn read(&mut self) -> (r: Result<String, SshError>)
        ensures
            r matches Err(e) ==> crate::errors::is_io_kind(e.kind),
    {
        match file_read_to_string(&mut self.remote) {
            Ok(contents) => Ok(contents),
            Err(f) => Err(crate::errors::translate_io(f)),
        }
    }

    /// Writes the data to the file and flushes it.
    pub fn write(&mut self, data: String) -> (r: Result<(), SshError>)
        ensures
            r matches Err(e) ==> crate::errors::is_io_kind(e.kind),
    {
        if let Err(f) = file_write_all(&mut self.remote, data.as_str()) {
            return Err(crate::errors::translate_io(f));
        }
        match file_flush(&mut self.remote) {
            Ok(()) => Ok(()),
            Err(f) => Err(crate::errors::translate_io(f)),
        }
    }
}

/// The SFTP client: the subsystem handle (until closed) and the emulated
/// working directory.
pub struct SFTPClient {
    client: Option<ssh2::Sftp>,
    cwd: Option<String>,
}

impl SFTPClient {
    /// Whether the subsystem handle is still open.
    pub closed spec fn is_open_spec(&self) -> bool {
        self.client is Some
    }

    /// The emulated working directory.
    pub closed spec fn cwd_spec(&self) -> Option<Seq<char>> {
        opt_string_view(self.cwd)
    }

    /// Wraps a freshly opened subsystem handle; the working directory
    /// starts unset.
    pub(crate) fn from_subsystem(subsystem: ssh2::Sftp) -> (c: SFTPClient)
        ensures
            c.is_open_spec(),
            c.cwd_spec() is None,
    {
        SFTPClient { client: Some(subsystem), cwd: None }
    }

    /// Changes the emulated working directory.
    ///
    /// With no directory given, the working directory is cleared without
    /// touching the server. With a directory given, its existence is probed
    /// by attempting to open it as a remote directory: on probe failure a
    /// not-found error is returned and the working directory is unchanged;
    /// on success the directory is stored as given. Only absolute remote
    /// paths are meaningfully supported.
    pub fn chdir(&mut self, dir: Option<String>) -> (r: Result<(), SshError>)
        ensures
            !old(self).is_open_spec() ==> (r matches Err(e) && e.kind == SshErrorKind::NotOpen)
                && *final(self) == *old(self),
            final(self).is_open_spec() == old(self).is_open_spec(),
            old(self).is_open_spec() && dir is None ==> r is Ok,
            r is Ok ==> final(self).cwd_spec() == opt_string_view(dir),
            r is Err ==> final(self).cwd_spec() == old(self).cwd_spec(),
            old(self).is_open_spec() ==> (r matches Err(e) ==> (dir matches Some(d) && e.kind
                == SshErrorKind::NotFound && e.message@ == "path does not exist on server: "@
                + d@)),
    {
        match &self.client {
            Some(client) => {
                if let Some(path) = &dir {
                    if let Err(_) = sftp_probe_dir(client, path.as_str()) {
                        let mut message = String::from_str("path does not exist on server: ");
                        message.append(path.as_str());
                        return Err(SshError::new(SshErrorKind::NotFound, message));
                    }
                }
                self.cwd = dir;
                Ok(())
            },
            None => Err(SshError::not_open()),
        }
    }

    /// Returns the emulated working directory, with no remote traffic.
    pub fn getcwd(&self) -> (r: Option<String>)
        ensures
            opt_string_view(r) == self.cwd_spec(),
    {
        match &self.cwd {
            Some(cwd) => Some(cwd.clone()),
            None => None,
        }
    }

    /// Creates a directory on the remote server with the given permission
    /// mode (511 when unspecified), at the given path composed onto the
    /// working directory.
    pub fn mkdir(&mut self, dir: String, mode: Option<i32>) -> (r: Result<(), SshError>)
        ensures
            *final(self) == *old(self),
            !old(self).is_open_spec() ==> (r matches Err(e) && e.kind == SshErrorKind::NotOpen),
            old(self).is_open_spec() ==> (r matches Err(e) ==> crate::errors::is_protocol_kind(e.kind)),
    {
        let mode = match mode {
            Some(m) => m,
            None => DEFAULT_DIR_MODE,
        };
        match &self.client {
            Some(client) => {
                let path = path_from_string(self.cwd.as_ref(), &dir);
                match sftp_mkdir(client, path.as_str(), mode) {
                    Ok(()) => Ok(()),
                    Err(f) => Err(crate::errors::translate_transport(f)),
                }
            },
            None => Err(SshError::not_open()),
        }
    }

    /// Removes a file on the remote server, at the given path composed onto
    /// the working directory. Only works for files; for directories use
    /// [`SFTPClient::rmdir`].
    pub fn unlink(&mut self, path: String) -> (r: Result<(), SshError>)
        ensures
            *final(self) == *old(self),
            !old(self).is_open_spec() ==> (r matches Err(e) && e.kind == SshErrorKind::NotOpen),
            old(self).is_open_spec() ==> (r matches Err(e) ==> crate::errors::is_protocol_kind(e.kind)),
    {
        match &self.client {
            Some(client) => {
                let path = path_from_string(self.cwd.as_ref(), &path);
                match sftp_unlink(client, path.as_str()) {
                    Ok(()) => Ok(()),
                    Err(f) => Err(crate::errors::translate_transport(f)),
                }
            },
            None => Err(SshError::not_open()),
        }
    }

    /// Removes a file on the remote server; an alias for
    /// [`SFTPClient::unlink`].
    pub fn remove(&mut self, path: String) -> (r: Result<(), SshError>)
        ensures
            *final(self) == *old(self),
            !old(self).is_open_spec() ==> (r matches Err(e) && e.kind == SshErrorKind::NotOpen),
            old(self).is_open_spec() ==> (r matches Err(e) ==> crate::errors::is_protocol_kind(e.kind)),
    {
        self.unlink(path)
    }

    /// Removes a directory on the remote server, at the given path composed
    /// onto the working directory. Only works for directories; for files
    /// use [`SFTPClient::unlink`].
    pub fn rmdir(&mut self, dir: String) -> (r: Result<(), SshError>)
        ensures
            *final(self) == *old(self),
            !old(self).is_open_spec() ==> (r matches Err(e) && e.kind == SshErrorKind::NotOpen),
            old(self).is_open_spec() ==> (r matches Err(e) ==> crate::errors::is_protocol_kind(e.kind)),
    {
        match &self.client {
            Some(client) => {
                let path = path_from_string(self.cwd.as_ref(), &dir);
                match sftp_rmdir(client, path.as_str()) {
                    Ok(()) => Ok(()),
                    Err(f) => Err(crate::errors::translate_transport(f)),
                }
            },
            None => Err(SshError::not_open()),
        }
    }

    /// Opens a file on the remote server, at the given path composed onto
    /// the working directory, with a POSIX-style mode string (`"r"` when
    /// unspecified) translated as [`mode_flags`] describes. An unrecognized
    /// mode fails with an invalid-argument error before anything else is
    /// examined; files created on the way get fixed permission bits.
    pub fn open(&mut self, filename: String, mode: Option<&str>) -> (r: Result<RemoteFile, SshError>)
        ensures
            *final(self) == *old(self),
            mode_flags(
                match mode {
                    Option::Some(m) => m@,
                    Option::None => "r"@,
                },
            ) is None ==> (r matches Err(e) && e.kind == SshErrorKind::InvalidArgument
                && e.message@ == "invalid mode: "@ + match mode {
                    Option::Some(m) => m@,
                    Option::None => "r"@,
                }),
            mode_flags(
                match mode {
                    Option::Some(m) => m@,
                    Option::None => "r"@,
                },
            ) is Some && !old(self).is_open_spec() ==> (r matches Err(e) && e.kind
                == SshErrorKind::NotOpen),
            mode_flags(
                match mode {
                    Option::Some(m) => m@,
                    Option::None => "r"@,
                },
            ) is Some && old(self).is_open_spec() ==> (r matches Err(e)
                ==> crate::errors::is_protocol_kind(e.kind)),
    {
        let mode_str = match mode {
            Some(m) => m,
            None => "r",
        };
        let flags = match flags_for_mode(mode_str) {
            Some(flags) => flags,
            None => {
                let mut message = String::from_str("invalid mode: ");
                message.append(mode_str);
                return Err(SshError::new(SshErrorKind::InvalidArgument, message));
            },
        };
        match &self.client {
            Some(client) => {
                let path = path_from_string(self.cwd.as_ref(), &filename);
                match sftp_open_with_flags(client, path.as_str(), flags, CREATION_MODE) {
                    Ok(remote) => Ok(RemoteFile::from_remote(remote)),
                    Err(f) => Err(crate::errors::translate_transport(f)),
                }
            },
            None => Err(SshError::not_open()),
        }
    }

    /// Opens a file on the remote server; an alias for
    /// [`SFTPClient::open`].
    pub fn file(&mut self, filename: String, mode: Option<&str>) -> (r: Result<RemoteFile, SshError>)
        ensures
            *final(self) == *old(self),
            mode_flags(
                match mode {
                    Option::Some(m) => m@,
                    Option::None => "r"@,
                },
            ) is None ==> (r matches Err(e) && e.kind == SshErrorKind::InvalidArgument
                && e.message@ == "invalid mode: "@ + match mode {
                    Option::Some(m) => m@,
                    Option::None => "r"@,
                }),
            mode_flags(
                match mode {
                    Option::Some(m) => m@,
                    Option::None => "r"@,
                },
            ) is Some && !old(self).is_open_spec() ==> (r matches Err(e) && e.kind
                == SshErrorKind::NotOpen),
            mode_flags(
                match mode {
                    Option::Some(m) => m@,
                    Option::None => "r"@,
                },
            ) is Some && old(self).is_open_spec() ==> (r matches Err(e)
                ==> crate::errors::is_protocol_kind(e.kind)),
    {
        self.open(filename, mode)
    }

    /// Reads the remote file at the given path (composed onto the working
    /// directory) fully and returns its contents. Writing the contents to a
    /// local destination is the embedding input/output layer's concern.
    pub fn get(&mut self, remotepath: String) -> (r: Result<String, SshError>)
        ensures
            *final(self) == *old(self),
            !old(self).is_open_spec() ==> (r matches Err(e) && e.kind == SshErrorKind::NotOpen),
            old(self).is_open_spec() ==> (r matches Err(e) ==> crate::errors::is_protocol_kind(e.kind) || crate::errors::is_io_kind(e.kind)),
    {
        match &self.client {
            Some(client) => {
                let path = path_from_string(self.cwd.as_ref(), &remotepath);
                let mut file = match sftp_open_read(client, path.as_str()) {
                    Ok(file) => file,
                    Err(f) => {
                        return Err(crate::errors::translate_transport(f));
                    },
                };
                match file_read_to_string(&mut file) {
                    Ok(contents) => Ok(contents),
                    Err(f) => Err(crate::errors::translate_io(f)),
                }
            },
            None => Err(SshError::not_open()),
        }
    }

    /// Creates or overwrites the remote file at the given path (composed
    /// onto the working directory) with the full given content. Reading the
    /// content from a local source is the embedding input/output layer's
    /// concern.
    pub fn put(&mut self, content: String, remotepath: String) -> (r: Result<(), SshError>)
        ensures
            *final(self) == *old(self),
            !old(self).is_open_spec() ==> (r matches Err(e) && e.kind == SshErrorKind::NotOpen),
            old(self).is_open_spec() ==> (r matches Err(e) ==> crate::errors::is_protocol_kind(e.kind) || crate::errors::is_io_kind(e.kind)),
    {
        match &self.client {
            Some(client) => {
                let path = path_from_string(self.cwd.as_ref(), &remotepath);
                let mut file = match sftp_create(client, path.as_str()) {
                    Ok(file) => file,
                    Err(f) => {
                        return Err(crate::errors::translate_transport(f));
                    },
                };
                match file_write_all(&mut file, content.as_str()) {
                    Ok(()) => Ok(()),
                    Err(f) => Err(crate::errors::translate_io(f)),
                }
            },
            None => Err(SshError::not_open()),
        }
    }

    /// Whether the subsystem handle has been closed.
    pub fn is_closed(&self) -> (r: bool)
        ensures
            r == !self.is_open_spec(),
    {
        self.client.is_none()
    }

    /// Tears down the subsystem handle; idempotent, and the stored working
    /// directory is kept.
    pub fn close(&mut self)
        ensures
            !final(self).is_open_spec(),
            final(self).cwd_spec() == old(self).cwd_spec(),
    {
        self.client.take();
    }
}

} // verus!
