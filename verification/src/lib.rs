//! A client library for remote command execution and file transfer over a
//! secure remote-shell protocol.
//!
//! The wire protocol, key exchange, and encryption are supplied by an
//! external transport engine; this crate provides the session, channel, and
//! SFTP abstraction layer on top of it: connection bootstrap,
//! multi-credential authentication with fallback, the lifecycle of a
//! command-execution channel with independent stream views, an SFTP front
//! end emulating a working directory, and a unified error taxonomy.

pub mod auth;
pub mod command;
pub mod errors;
pub mod paths;
pub mod session;
pub mod sftp;
pub mod transport;
