//! Synchronization core for a local script project kept in step with a
//! remote script-hosting service.
//!
//! The library models the mapping between a project directory
//! (`fumosync.json`, `README.md`, `init.server.luau`, `pkg/*.luau`) and the
//! remote editor state (name, description, whitelist, visibility, main
//! source, named modules), together with the planning logic of the three
//! operations: initializing a fresh skeleton, pulling a remote project into
//! local files, and pushing local edits back as an ordered action sequence.
//! All file and network I/O is performed by the surrounding application; the
//! functions here compute, from plain values, exactly what to read, write
//! and send.

pub mod codec;
pub mod config;
pub mod error;
pub mod init;
pub mod jparse;
pub mod jtext;
pub mod laws;
pub mod modules;
pub mod pull;
pub mod push;
