use lmdb_helper::{
    extract_all, extract_key, get_database, insert, print_list, AccessMode, Action, Event,
    ExtractStage, Fault, InsertStage, ListEntry, ListStage, OpenStage, PresentableError, Progress,
    SweepStage,
};

fn failed() -> Event {
    Event::Failed { fault: Fault::Unspecified }
}

fn record(key: &str, value: &[u8]) -> Event {
    Event::Record { key: key.to_string(), value: value.to_vec() }
}

fn others(wanted: &Event) -> Vec<Event> {
    let all = vec![
        Event::Start,
        Event::Done,
        failed(),
        record("k", b"v"),
        Event::Exhausted,
        Event::Undecodable,
        Event::Value { bytes: vec![1] },
    ];
    all.into_iter().filter(|e| std::mem::discriminant(e) != std::mem::discriminant(wanted)).collect()
}

#[test]
fn opening_asks_for_the_environment_then_the_database() {
    assert_eq!(
        get_database(OpenStage::Pending, Event::Start, "dir", Some("db"), false),
        Progress::Next {
            stage: OpenStage::Environment,
            action: Action::OpenEnvironment {
                path: "dir".to_string(),
                mode: AccessMode::ReadOnly,
                max_databases: 2,
                permissions: 0o600,
            },
        }
    );
    assert_eq!(
        get_database(OpenStage::Pending, Event::Start, "dir", None, true),
        Progress::Next {
            stage: OpenStage::Environment,
            action: Action::OpenEnvironment {
                path: "dir".to_string(),
                mode: AccessMode::ReadWrite,
                max_databases: 2,
                permissions: 0o600,
            },
        }
    );
    assert_eq!(
        get_database(OpenStage::Environment, Event::Done, "dir", Some("db"), false),
        Progress::Next {
            stage: OpenStage::Database,
            action: Action::OpenDatabase { name: Some("db".to_string()) },
        }
    );
    assert_eq!(
        get_database(OpenStage::Environment, Event::Done, "dir", None, false),
        Progress::Next { stage: OpenStage::Database, action: Action::OpenDatabase { name: None } }
    );
    assert_eq!(get_database(OpenStage::Database, Event::Done, "dir", None, false), Progress::Done);
}

#[test]
fn opening_reports_why_the_environment_was_refused() {
    for fault in [Fault::NoSuchDirectory, Fault::NotAStore, Fault::PermissionDenied, Fault::Unspecified] {
        assert_eq!(
            get_database(OpenStage::Environment, Event::Failed { fault }, "dir", None, false),
            Progress::Failed { error: PresentableError::EnvironmentOpenFailed(fault) }
        );
    }
    assert_eq!(
        get_database(OpenStage::Environment, Event::Exhausted, "dir", None, false),
        Progress::Failed { error: PresentableError::EnvironmentOpenFailed(Fault::Unspecified) }
    );
    for event in others(&Event::Done) {
        assert_eq!(
            get_database(OpenStage::Database, event, "dir", None, false),
            Progress::Failed { error: PresentableError::DatabaseOpenFailed }
        );
    }
}

#[test]
fn listing_collects_records_and_prints_at_the_end() {
    assert_eq!(
        print_list(ListStage::Pending, Event::Start),
        Progress::Next { stage: ListStage::Transaction, action: Action::BeginRead }
    );
    assert_eq!(
        print_list(ListStage::Transaction, Event::Done),
        Progress::Next { stage: ListStage::Cursor, action: Action::OpenCursor }
    );
    assert_eq!(
        print_list(ListStage::Cursor, Event::Done),
        Progress::Next { stage: ListStage::Scan { entries: vec![] }, action: Action::ReadFirst }
    );
    let one = ListEntry { key: "alpha".to_string(), size: 5 };
    let two = ListEntry { key: "beta".to_string(), size: 6 };
    assert_eq!(
        print_list(ListStage::Scan { entries: vec![] }, record("alpha", b"hello")),
        Progress::Next { stage: ListStage::Scan { entries: vec![one.clone()] }, action: Action::ReadNext }
    );
    assert_eq!(
        print_list(ListStage::Scan { entries: vec![one.clone()] }, record("beta", b"world!")),
        Progress::Next {
            stage: ListStage::Scan { entries: vec![one.clone(), two.clone()] },
            action: Action::ReadNext,
        }
    );
    assert_eq!(
        print_list(ListStage::Scan { entries: vec![one, two] }, Event::Exhausted),
        Progress::Next {
            stage: ListStage::Print,
            action: Action::Print {
                lines: vec![
                    "| Key   | Size (bytes) |".to_string(),
                    "| ----- | ------------ |".to_string(),
                    "| alpha | 5            |".to_string(),
                    "| beta  | 6            |".to_string(),
                ],
            },
        }
    );
    assert_eq!(
        print_list(ListStage::Print, Event::Done),
        Progress::Next { stage: ListStage::Close, action: Action::EndRead }
    );
    assert_eq!(print_list(ListStage::Close, Event::Done), Progress::Done);
}

#[test]
fn listing_fails_with_the_error_of_the_step() {
    for event in others(&Event::Done) {
        assert_eq!(
            print_list(ListStage::Transaction, event.clone()),
            Progress::Failed { error: PresentableError::TransactionCreateFailed(AccessMode::ReadOnly) }
        );
        assert_eq!(
            print_list(ListStage::Cursor, event),
            Progress::Failed { error: PresentableError::CursorOpenFailed }
        );
    }
    assert_eq!(
        print_list(ListStage::Scan { entries: vec![] }, Event::Undecodable),
        Progress::Failed { error: PresentableError::IterationDecodeFailed }
    );
    for event in [Event::Start, Event::Done, failed(), Event::Value { bytes: vec![] }] {
        assert_eq!(
            print_list(ListStage::Scan { entries: vec![] }, event),
            Progress::Failed { error: PresentableError::IterationFailed }
        );
    }
}

#[test]
fn extraction_looks_up_then_creates_then_writes() {
    assert_eq!(
        extract_key(ExtractStage::Pending, Event::Start, "key", "out"),
        Progress::Next { stage: ExtractStage::Transaction, action: Action::BeginRead }
    );
    assert_eq!(
        extract_key(ExtractStage::Transaction, Event::Done, "key", "out"),
        Progress::Next { stage: ExtractStage::Lookup, action: Action::Get { key: "key".to_string() } }
    );
    assert_eq!(
        extract_key(ExtractStage::Lookup, Event::Value { bytes: vec![9, 8, 7] }, "key", "out"),
        Progress::Next {
            stage: ExtractStage::Create { bytes: vec![9, 8, 7] },
            action: Action::CreateFile { path: "out".to_string() },
        }
    );
    assert_eq!(
        extract_key(ExtractStage::Create { bytes: vec![9, 8, 7] }, Event::Done, "key", "out"),
        Progress::Next { stage: ExtractStage::Write, action: Action::WriteFile { bytes: vec![9, 8, 7] } }
    );
    assert_eq!(
        extract_key(ExtractStage::Write, Event::Done, "key", "out"),
        Progress::Next { stage: ExtractStage::Close, action: Action::EndRead }
    );
    assert_eq!(extract_key(ExtractStage::Close, Event::Done, "key", "out"), Progress::Done);
}

#[test]
fn extraction_fails_with_the_error_of_the_step() {
    for event in others(&Event::Done) {
        assert_eq!(
            extract_key(ExtractStage::Transaction, event.clone(), "key", "out"),
            Progress::Failed { error: PresentableError::TransactionCreateFailed(AccessMode::ReadOnly) }
        );
        assert_eq!(
            extract_key(ExtractStage::Create { bytes: vec![1] }, event.clone(), "key", "out"),
            Progress::Failed { error: PresentableError::FileCreateFailed }
        );
        assert_eq!(
            extract_key(ExtractStage::Write, event, "key", "out"),
            Progress::Failed { error: PresentableError::FileWriteFailed }
        );
    }
    for event in others(&Event::Value { bytes: vec![] }) {
        assert_eq!(
            extract_key(ExtractStage::Lookup, event, "key", "out"),
            Progress::Failed { error: PresentableError::KeyNotFound }
        );
    }
}

#[test]
fn sweeping_writes_each_record_to_its_key() {
    assert_eq!(
        extract_all(SweepStage::Pending, Event::Start),
        Progress::Next { stage: SweepStage::Transaction, action: Action::BeginRead }
    );
    assert_eq!(
        extract_all(SweepStage::Transaction, Event::Done),
        Progress::Next { stage: SweepStage::Cursor, action: Action::OpenCursor }
    );
    assert_eq!(
        extract_all(SweepStage::Cursor, Event::Done),
        Progress::Next { stage: SweepStage::Scan, action: Action::ReadFirst }
    );
    assert_eq!(
        extract_all(SweepStage::Scan, record("a", &[1, 2])),
        Progress::Next {
            stage: SweepStage::Create { bytes: vec![1, 2] },
            action: Action::CreateFile { path: "a".to_string() },
        }
    );
    assert_eq!(
        extract_all(SweepStage::Create { bytes: vec![1, 2] }, Event::Done),
        Progress::Next { stage: SweepStage::Write, action: Action::WriteFile { bytes: vec![1, 2] } }
    );
    assert_eq!(
        extract_all(SweepStage::Write, Event::Done),
        Progress::Next { stage: SweepStage::Scan, action: Action::ReadNext }
    );
    assert_eq!(
        extract_all(SweepStage::Scan, Event::Exhausted),
        Progress::Next { stage: SweepStage::Close, action: Action::EndRead }
    );
    assert_eq!(extract_all(SweepStage::Close, Event::Done), Progress::Done);
}

#[test]
fn sweeping_fails_with_the_error_of_the_step() {
    for event in others(&Event::Done) {
        assert_eq!(
            extract_all(SweepStage::Transaction, event.clone()),
            Progress::Failed { error: PresentableError::TransactionCreateFailed(AccessMode::ReadOnly) }
        );
        assert_eq!(
            extract_all(SweepStage::Cursor, event.clone()),
            Progress::Failed { error: PresentableError::CursorOpenFailed }
        );
        assert_eq!(
            extract_all(SweepStage::Create { bytes: vec![] }, event.clone()),
            Progress::Failed { error: PresentableError::FileCreateFailed }
        );
        assert_eq!(
            extract_all(SweepStage::Write, event),
            Progress::Failed { error: PresentableError::FileWriteFailed }
        );
    }
    assert_eq!(
        extract_all(SweepStage::Scan, Event::Undecodable),
        Progress::Failed { error: PresentableError::IterationDecodeFailed }
    );
    assert_eq!(
        extract_all(SweepStage::Scan, failed()),
        Progress::Failed { error: PresentableError::IterationFailed }
    );
}

#[test]
fn insertion_reads_then_puts_then_commits() {
    assert_eq!(
        insert(InsertStage::Pending, Event::Start, "file"),
        Progress::Next { stage: InsertStage::Open, action: Action::OpenFile { path: "file".to_string() } }
    );
    assert_eq!(
        insert(InsertStage::Open, Event::Done, "file"),
        Progress::Next { stage: InsertStage::Read, action: Action::ReadFile }
    );
    assert_eq!(
        insert(InsertStage::Read, Event::Value { bytes: vec![4, 5] }, "file"),
        Progress::Next { stage: InsertStage::Transaction { bytes: vec![4, 5] }, action: Action::BeginWrite }
    );
    assert_eq!(
        insert(InsertStage::Transaction { bytes: vec![4, 5] }, Event::Done, "file"),
        Progress::Next {
            stage: InsertStage::Put,
            action: Action::Put { key: "file".to_string(), value: vec![4, 5] },
        }
    );
    assert_eq!(
        insert(InsertStage::Put, Event::Done, "file"),
        Progress::Next { stage: InsertStage::Commit, action: Action::Commit }
    );
    assert_eq!(insert(InsertStage::Commit, Event::Done, "file"), Progress::Done);
}

#[test]
fn insertion_fails_with_the_error_of_the_step() {
    for event in others(&Event::Done) {
        assert_eq!(
            insert(InsertStage::Open, event.clone(), "file"),
            Progress::Failed { error: PresentableError::FileOpenFailed }
        );
        assert_eq!(
            insert(InsertStage::Transaction { bytes: vec![] }, event.clone(), "file"),
            Progress::Failed { error: PresentableError::TransactionCreateFailed(AccessMode::ReadWrite) }
        );
        assert_eq!(
            insert(InsertStage::Put, event.clone(), "file"),
            Progress::Failed { error: PresentableError::PutFailed }
        );
        assert_eq!(
            insert(InsertStage::Commit, event, "file"),
            Progress::Failed { error: PresentableError::TransactionCommitFailed }
        );
    }
    for event in others(&Event::Value { bytes: vec![] }) {
        assert_eq!(
            insert(InsertStage::Read, event, "file"),
            Progress::Failed { error: PresentableError::FileReadFailed }
        );
    }
}
