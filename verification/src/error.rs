//! Error taxonomy of the synchronization core.
//!
//! Every failing operation surfaces the most specific kind available, with
//! the path it concerns where one exists; the cause string carries the text
//! of the underlying storage error, supplied by the caller that performed
//! the I/O.

use vstd::prelude::*;

verus! {

/// One failure of an init, pull or push operation.
#[derive(Debug, PartialEq, Eq)]
pub enum Error {
    /// A file could not be created or overwritten at the given path.
    CreateFile(String, String),
    /// A directory level could not be created at the given path.
    CreateDirectory(String, String),
    /// A file could not be read at the given path.
    ReadFile(String, String),
    /// A directory could not be opened for enumeration at the given path.
    ReadDirectory(String, String),
    /// The target directory of an init already exists; nothing is merged
    /// or overwritten.
    DirectoryAlreadyExists(String),
    /// A pull failed while standing up the local skeleton; the inner error
    /// is the init-phase failure, kept distinct from fetch-phase failures.
    ProjectDidntInitialize(Box<Error>),
    /// The configuration file was absent or malformed.
    Deserialize,
    /// The configuration could not be encoded.
    Serialize,
}

} // verus!
