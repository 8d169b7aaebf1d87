//! What the database engine hands back: its descriptors and its errors.
//!
//! The engine runs outside this crate. Its answers come in as the plain
//! values below, with the structure of an error still intact, so that a
//! failure can be classified before it is flattened to text.

use vstd::prelude::*;
use vstd::string::StringExecFns;

verus! {

/// The cause that the operating system gave for a failed file operation.
#[derive(Clone, Copy, Debug, PartialEq, Eq, Structural)]
pub enum IoCause {
    /// No file at the given path.
    NotFound,
    /// The file is there, but may not be read or written.
    PermissionDenied,
    /// Any other cause.
    Other,
}

/// The machine-readable kind of an engine error.
#[derive(Clone, Copy, Debug, PartialEq, Eq, Structural)]
pub enum FailureKind {
    /// Reading or writing the database file failed, for the given cause.
    FileIo(IoCause),
    /// Key derivation or decryption failed, as with a wrong password.
    Cryptographic,
    /// The file is not a valid database.
    Format,
    /// A request was refused as invalid.
    Validation,
    /// Anything else.
    Other,
}

/// A failure of the engine: its kind, and its top-level message.
#[derive(Clone, Debug, PartialEq, Eq)]
pub struct EngineError {
    pub kind: FailureKind,
    pub message: String,
}

/// Describes a database that was loaded, created or saved under a new name.
#[derive(Clone, Debug, PartialEq, Eq)]
pub struct KdbxLoaded {
    /// The key of the database: the path of its file.
    pub db_key: String,
    pub database_name: String,
}

/// The top-level message of an engine error for a database file that could
/// not be opened.
pub open spec fn file_opening_failed() -> Seq<char> {
    "Database file opening failed"@
}

impl EngineError {
    /// Whether this error says that the database file could not be opened
    /// because no file is at its path.
    pub open spec fn is_missing_file(&self) -> bool {
        &&& self.kind == FailureKind::FileIo(IoCause::NotFound)
        &&& self.message@ == file_opening_failed()
    }

    /// Classifies the error by its structure: true exactly for a failure to
    /// open the database file whose cause is that the file was not found.
    pub fn reports_missing_file(&self) -> (missing: bool)
        ensures
            missing == self.is_missing_file(),
    {
        match self.kind {
            FailureKind::FileIo(IoCause::NotFound) => {
                let expected: String = String::from_str("Database file opening failed");
                self.message == expected
            },
            _ => false,
        }
    }
}

/// The outcome as it crosses to the caller: the payload untouched, an error
/// reduced to its message.
pub open spec fn flattened<T>(outcome: Result<T, EngineError>) -> Result<T, String> {
    match outcome {
        Ok(payload) => Ok(payload),
        Err(error) => Err(error.message),
    }
}

/// Flattens an engine outcome for transport. Whatever is to be decided from
/// the error's structure has to be decided before this call: the text that
/// comes out carries none.
pub fn flatten<T>(outcome: Result<T, EngineError>) -> (sent: Result<T, String>)
    ensures
        sent == flattened(outcome),
{
    match outcome {
        Ok(payload) => Ok(payload),
        Err(error) => Err(error.message),
    }
}

} // verus!
