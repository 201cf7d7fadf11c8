//! The failures a session can report, each with its fixed message.
use vstd::prelude::*;
use vstd::string::*;

verus! {

/// How the store directory is opened, for the whole life of the session.
#[derive(Clone, Copy, Debug, PartialEq, Eq, Structural)]
pub enum AccessMode {
    ReadOnly,
    ReadWrite,
}

/// Why the host could not do what it was asked, as far as it can tell.
///
/// Only the opening of the store directory is reported in this detail; for
/// every other failure the reason is dropped.
#[derive(Clone, Copy, Debug, PartialEq, Eq, Structural)]
pub enum Fault {
    /// The path names nothing.
    NoSuchDirectory,
    /// The path exists but holds no store that the engine accepts.
    NotAStore,
    /// The path may not be read, or not written in read-write mode.
    PermissionDenied,
    /// Anything else.
    Unspecified,
}

/// A terminal failure of the requested work.
#[derive(Clone, Copy, Debug, PartialEq, Eq, Structural)]
pub enum PresentableError {
    EnvironmentOpenFailed(Fault),
    DatabaseOpenFailed,
    TransactionCreateFailed(AccessMode),
    TransactionCommitFailed,
    CursorOpenFailed,
    IterationFailed,
    IterationDecodeFailed,
    KeyNotFound,
    PutFailed,
    FileCreateFailed,
    FileWriteFailed,
    FileOpenFailed,
    FileReadFailed,
}

impl PresentableError {
    /// The message of this failure.
    pub open spec fn message_text(self) -> Seq<char> {
        match self {
            PresentableError::EnvironmentOpenFailed(Fault::NoSuchDirectory) =>
                "Failed to open an environment. No such directory."@,
            PresentableError::EnvironmentOpenFailed(Fault::NotAStore) =>
                "Failed to open an environment. Not a valid store."@,
            PresentableError::EnvironmentOpenFailed(Fault::PermissionDenied) =>
                "Failed to open an environment. Permission denied."@,
            PresentableError::EnvironmentOpenFailed(Fault::Unspecified) =>
                "Failed to open an environment. No database?"@,
            PresentableError::DatabaseOpenFailed => "Failed to open database, does it exist?"@,
            PresentableError::TransactionCreateFailed(AccessMode::ReadOnly) =>
                "Failed to create read transaction"@,
            PresentableError::TransactionCreateFailed(AccessMode::ReadWrite) =>
                "Failed to get write transaction"@,
            PresentableError::TransactionCommitFailed => "Failed to commit write transaction"@,
            PresentableError::CursorOpenFailed => "Failed to open a cursor"@,
            PresentableError::IterationFailed => "Failed to get an iterable cursor"@,
            PresentableError::IterationDecodeFailed =>
                "Failed to decode a record. Is every key valid text?"@,
            PresentableError::KeyNotFound => "Failed to get a value by key"@,
            PresentableError::PutFailed => "Failed to add file to the database"@,
            PresentableError::FileCreateFailed => "Failed to create the out file"@,
            PresentableError::FileWriteFailed => "Failed to write to the out file"@,
            PresentableError::FileOpenFailed =>
                "Failed to open file to insert. Make sure it exists and is readable."@,
            PresentableError::FileReadFailed => "Failed to read file to insert."@,
        }
    }

    /// The line shown to the user: the word `Error`, a colon, and the message.
    pub open spec fn described(self) -> Seq<char> {
        "Error: "@ + self.message_text()
    }

    /// The fixed, human-readable message of this failure.
    pub fn message(&self) -> (text: &'static str)
        ensures
            text@ == self.message_text(),
    {
        match self {
            PresentableError::EnvironmentOpenFailed(Fault::NoSuchDirectory) =>
                "Failed to open an environment. No such directory.",
            PresentableError::EnvironmentOpenFailed(Fault::NotAStore) =>
                "Failed to open an environment. Not a valid store.",
            PresentableError::EnvironmentOpenFailed(Fault::PermissionDenied) =>
                "Failed to open an environment. Permission denied.",
            PresentableError::EnvironmentOpenFailed(Fault::Unspecified) =>
                "Failed to open an environment. No database?",
            PresentableError::DatabaseOpenFailed => "Failed to open database, does it exist?",
            PresentableError::TransactionCreateFailed(AccessMode::ReadOnly) =>
                "Failed to create read transaction",
            PresentableError::TransactionCreateFailed(AccessMode::ReadWrite) =>
                "Failed to get write transaction",
            PresentableError::TransactionCommitFailed => "Failed to commit write transaction",
            PresentableError::CursorOpenFailed => "Failed to open a cursor",
            PresentableError::IterationFailed => "Failed to get an iterable cursor",
            PresentableError::IterationDecodeFailed =>
                "Failed to decode a record. Is every key valid text?",
            PresentableError::KeyNotFound => "Failed to get a value by key",
            PresentableError::PutFailed => "Failed to add file to the database",
            PresentableError::FileCreateFailed => "Failed to create the out file",
            PresentableError::FileWriteFailed => "Failed to write to the out file",
            PresentableError::FileOpenFailed =>
                "Failed to open file to insert. Make sure it exists and is readable.",
            PresentableError::FileReadFailed => "Failed to read file to insert.",
        }
    }

    /// The line shown to the user when the work ends in this failure.
    pub fn describe(&self) -> (line: String)
        ensures
            line@ == self.described(),
    {
        let mut line = String::from_str("Error: ");
        line.append(self.message());
        line
    }
}

} // verus!
