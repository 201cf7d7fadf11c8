use lmdb_helper::{AccessMode, Fault, PresentableError};

fn all() -> Vec<(PresentableError, &'static str)> {
    vec![
        (
            PresentableError::EnvironmentOpenFailed(Fault::NoSuchDirectory),
            "Failed to open an environment. No such directory.",
        ),
        (
            PresentableError::EnvironmentOpenFailed(Fault::NotAStore),
            "Failed to open an environment. Not a valid store.",
        ),
        (
            PresentableError::EnvironmentOpenFailed(Fault::PermissionDenied),
            "Failed to open an environment. Permission denied.",
        ),
        (
            PresentableError::EnvironmentOpenFailed(Fault::Unspecified),
            "Failed to open an environment. No database?",
        ),
        (PresentableError::DatabaseOpenFailed, "Failed to open database, does it exist?"),
        (
            PresentableError::TransactionCreateFailed(AccessMode::ReadOnly),
            "Failed to create read transaction",
        ),
        (
            PresentableError::TransactionCreateFailed(AccessMode::ReadWrite),
            "Failed to get write transaction",
        ),
        (PresentableError::TransactionCommitFailed, "Failed to commit write transaction"),
        (PresentableError::CursorOpenFailed, "Failed to open a cursor"),
        (PresentableError::IterationFailed, "Failed to get an iterable cursor"),
        (
            PresentableError::IterationDecodeFailed,
            "Failed to decode a record. Is every key valid text?",
        ),
        (PresentableError::KeyNotFound, "Failed to get a value by key"),
        (PresentableError::PutFailed, "Failed to add file to the database"),
        (PresentableError::FileCreateFailed, "Failed to create the out file"),
        (PresentableError::FileWriteFailed, "Failed to write to the out file"),
        (
            PresentableError::FileOpenFailed,
            "Failed to open file to insert. Make sure it exists and is readable.",
        ),
        (PresentableError::FileReadFailed, "Failed to read file to insert."),
    ]
}

#[test]
fn every_error_has_its_message() {
    for (error, message) in all() {
        assert_eq!(error.message(), message);
    }
}

#[test]
fn the_described_error_starts_with_the_word_error() {
    for (error, message) in all() {
        assert_eq!(error.describe(), format!("Error: {}", message));
    }
}

#[test]
fn messages_tell_the_failures_apart() {
    let messages: Vec<&str> = all().iter().map(|(error, _)| error.message()).collect();
    for (i, one) in messages.iter().enumerate() {
        for other in &messages[i + 1..] {
            assert_ne!(one, other);
        }
    }
}
