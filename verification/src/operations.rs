//! The operations of a session, each as a conversation with the host.
//!
//! An operation is a function from the stage it stands at and the event that
//! the host reports to the stage it moves to and the action it asks for. A
//! stage is named after the answer it waits for; at `Pending` nothing was
//! asked yet, and the event is not looked at.
use vstd::prelude::*;
use vstd::string::*;
use crate::config::{owned, str_of};
use crate::error::{AccessMode, Fault, PresentableError};
use crate::listing::{entries_view, render_table, table, EntryView, ListEntry};
use crate::protocol::{Action, ActionView, Event, EventView, Progress, ProgressView};

verus! {

/// At most this many named databases are held open at once.
pub const MAX_DATABASES: u32 = 2;

/// Files that the engine creates can be read and written by their owner
/// only.
pub const FILE_PERMISSIONS: u32 = 0o600;

/// Where the opening of the database stands: at the answer it waits for.
#[derive(Clone, Copy, Debug, PartialEq, Eq, Structural)]
pub enum OpenStage {
    Pending,
    Environment,
    Database,
}

impl View for OpenStage {
    type V = OpenStage;

    open spec fn view(&self) -> OpenStage {
        *self
    }
}

/// Where the opening of the database goes from `stage` on `event`.
pub open spec fn open_step(
    stage: OpenStage,
    event: EventView,
    path: Seq<char>,
    database: Option<Seq<char>>,
    writable: bool,
) -> ProgressView<OpenStage> {
    match stage {
        OpenStage::Pending => ProgressView::Next {
            stage: OpenStage::Environment,
            action: ActionView::OpenEnvironment {
                path,
                mode: if writable {
                    AccessMode::ReadWrite
                } else {
                    AccessMode::ReadOnly
                },
                max_databases: MAX_DATABASES,
                permissions: FILE_PERMISSIONS,
            },
        },
        OpenStage::Environment => match event {
            EventView::Done => ProgressView::Next {
                stage: OpenStage::Database,
                action: ActionView::OpenDatabase { name: database },
            },
            EventView::Failed { fault } => ProgressView::Failed {
                error: PresentableError::EnvironmentOpenFailed(fault),
            },
            _ => ProgressView::Failed {
                error: PresentableError::EnvironmentOpenFailed(Fault::Unspecified),
            },
        },
        OpenStage::Database => match event {
            EventView::Done => ProgressView::Done,
            _ => ProgressView::Failed { error: PresentableError::DatabaseOpenFailed },
        },
    }
}

/// Opens the store directory at `path`, read-write if `writable` and
/// read-only otherwise, and in it the database named `database`, or the
/// unnamed one.
pub fn get_database(
    stage: OpenStage,
    event: Event,
    path: &str,
    database: Option<&str>,
    writable: bool,
) -> (progress: Progress<OpenStage>)
    ensures
        progress@ == open_step(stage, event@, path@, str_of(database), writable),
{
    match stage {
        OpenStage::Pending => Progress::Next {
            stage: OpenStage::Environment,
            action: Action::OpenEnvironment {
                path: String::from_str(path),
                mode: if writable {
                    AccessMode::ReadWrite
                } else {
                    AccessMode::ReadOnly
                },
                max_databases: MAX_DATABASES,
                permissions: FILE_PERMISSIONS,
            },
        },
        OpenStage::Environment => match event {
            Event::Done => Progress::Next {
                stage: OpenStage::Database,
                action: Action::OpenDatabase { name: owned(database) },
            },
            Event::Failed { fault } => Progress::Failed {
                error: PresentableError::EnvironmentOpenFailed(fault),
            },
            _ => Progress::Failed {
                error: PresentableError::EnvironmentOpenFailed(Fault::Unspecified),
            },
        },
        OpenStage::Database => match event {
            Event::Done => Progress::Done,
            _ => Progress::Failed { error: PresentableError::DatabaseOpenFailed },
        },
    }
}

/// Where the listing stands: at the answer it waits for.
#[derive(Clone, Debug, PartialEq, Eq)]
pub enum ListStage {
    Pending,
    Transaction,
    Cursor,
    /// The records reported so far, in the order in which they came.
    Scan { entries: Vec<ListEntry> },
    Print,
    Close,
}

/// What a [`ListStage`] stands for.
pub enum ListStageView {
    Pending,
    Transaction,
    Cursor,
    Scan { entries: Seq<EntryView> },
    Print,
    Close,
}

impl View for ListStage {
    type V = ListStageView;

    open spec fn view(&self) -> ListStageView {
        match *self {
            ListStage::Pending => ListStageView::Pending,
            ListStage::Transaction => ListStageView::Transaction,
            ListStage::Cursor => ListStageView::Cursor,
            ListStage::Scan { entries } => ListStageView::Scan { entries: entries_view(entries@) },
            ListStage::Print => ListStageView::Print,
            ListStage::Close => ListStageView::Close,
        }
    }
}

/// Where the listing goes from `stage` on `event`.
pub open spec fn list_step(stage: ListStageView, event: EventView) -> ProgressView<ListStageView> {
    match stage {
        ListStageView::Pending => ProgressView::Next {
            stage: ListStageView::Transaction,
            action: ActionView::BeginRead,
        },
        ListStageView::Transaction => match event {
            EventView::Done => ProgressView::Next {
                stage: ListStageView::Cursor,
                action: ActionView::OpenCursor,
            },
            _ => ProgressView::Failed {
                error: PresentableError::TransactionCreateFailed(AccessMode::ReadOnly),
            },
        },
        ListStageView::Cursor => match event {
            EventView::Done => ProgressView::Next {
                stage: ListStageView::Scan { entries: Seq::empty() },
                action: ActionView::ReadFirst,
            },
            _ => ProgressView::Failed { error: PresentableError::CursorOpenFailed },
        },
        ListStageView::Scan { entries } => match event {
            EventView::Record { key, value } => ProgressView::Next {
                stage: ListStageView::Scan {
                    entries: entries.push(EntryView { key, size: value.len() }),
                },
                action: ActionView::ReadNext,
            },
            EventView::Exhausted => ProgressView::Next {
                stage: ListStageView::Print,
                action: ActionView::Print { lines: table(entries) },
            },
            EventView::Undecodable => ProgressView::Failed {
                error: PresentableError::IterationDecodeFailed,
            },
            _ => ProgressView::Failed { error: PresentableError::IterationFailed },
        },
        ListStageView::Print => ProgressView::Next {
            stage: ListStageView::Close,
            action: ActionView::EndRead,
        },
        ListStageView::Close => ProgressView::Done,
    }
}

/// Lists the keys of the database and the sizes of their values.
///
/// Every record is read, inside one read transaction, before anything is
/// printed: the widths of the table are known only then. A record that the
/// cursor cannot report ends the listing with a failure; nothing is printed
/// in that case.
pub fn print_list(stage: ListStage, event: Event) -> (progress: Progress<ListStage>)
    ensures
        progress@ == list_step(stage@, event@),
{
    match stage {
        ListStage::Pending => Progress::Next {
            stage: ListStage::Transaction,
            action: Action::BeginRead,
        },
        ListStage::Transaction => match event {
            Event::Done => Progress::Next { stage: ListStage::Cursor, action: Action::OpenCursor },
            _ => Progress::Failed {
                error: PresentableError::TransactionCreateFailed(AccessMode::ReadOnly),
            },
        },
        ListStage::Cursor => match event {
            Event::Done => {
                let entries: Vec<ListEntry> = Vec::new();
                assert(entries_view(entries@) =~= Seq::<EntryView>::empty());
                Progress::Next { stage: ListStage::Scan { entries }, action: Action::ReadFirst }
            },
            _ => Progress::Failed { error: PresentableError::CursorOpenFailed },
        },
        ListStage::Scan { entries } => match event {
            Event::Record { key, value } => {
                let mut entries = entries;
                let ghost before = entries_view(entries@);
                let entry = ListEntry { key, size: value.len() };
                entries.push(entry);
                assert(entries_view(entries@) =~= before.push(entry@));
                Progress::Next { stage: ListStage::Scan { entries }, action: Action::ReadNext }
            },
            Event::Exhausted => Progress::Next {
                stage: ListStage::Print,
                action: Action::Print { lines: render_table(&entries) },
            },
            Event::Undecodable => Progress::Failed {
                error: PresentableError::IterationDecodeFailed,
            },
            _ => Progress::Failed { error: PresentableError::IterationFailed },
        },
        ListStage::Print => Progress::Next { stage: ListStage::Close, action: Action::EndRead },
        ListStage::Close => Progress::Done,
    }
}

/// Where the extraction of one key stands: at the answer it waits for.
#[derive(Clone, Debug, PartialEq, Eq)]
pub enum ExtractStage {
    Pending,
    Transaction,
    Lookup,
    /// The value that was looked up, until it is written.
    Create { bytes: Vec<u8> },
    Write,
    Close,
}

/// What an [`ExtractStage`] stands for.
pub enum ExtractStageView {
    Pending,
    Transaction,
    Lookup,
    Create { bytes: Seq<u8> },
    Write,
    Close,
}

impl View for ExtractStage {
    type V = ExtractStageView;

    open spec fn view(&self) -> ExtractStageView {
        match *self {
            ExtractStage::Pending => ExtractStageView::Pending,
            ExtractStage::Transaction => ExtractStageView::Transaction,
            ExtractStage::Lookup => ExtractStageView::Lookup,
            ExtractStage::Create { bytes } => ExtractStageView::Create { bytes: bytes@ },
            ExtractStage::Write => ExtractStageView::Write,
            ExtractStage::Close => ExtractStageView::Close,
        }
    }
}

/// Where the extraction of `key` to `out_file` goes from `stage` on `event`.
pub open spec fn extract_step(
    stage: ExtractStageView,
    event: EventView,
    key: Seq<char>,
    out_file: Seq<char>,
) -> ProgressView<ExtractStageView> {
    match stage {
        ExtractStageView::Pending => ProgressView::Next {
            stage: ExtractStageView::Transaction,
            action: ActionView::BeginRead,
        },
        ExtractStageView::Transaction => match event {
            EventView::Done => ProgressView::Next {
                stage: ExtractStageView::Lookup,
                action: ActionView::Get { key },
            },
            _ => ProgressView::Failed {
                error: PresentableError::TransactionCreateFailed(AccessMode::ReadOnly),
            },
        },
        ExtractStageView::Lookup => match event {
            EventView::Value { bytes } => ProgressView::Next {
                stage: ExtractStageView::Create { bytes },
                action: ActionView::CreateFile { path: out_file },
            },
            _ => ProgressView::Failed { error: PresentableError::KeyNotFound },
        },
        ExtractStageView::Create { bytes } => match event {
            EventView::Done => ProgressView::Next {
                stage: ExtractStageView::Write,
                action: ActionView::WriteFile { bytes },
            },
            _ => ProgressView::Failed { error: PresentableError::FileCreateFailed },
        },
        ExtractStageView::Write => match event {
            EventView::Done => ProgressView::Next {
                stage: ExtractStageView::Close,
                action: ActionView::EndRead,
            },
            _ => ProgressView::Failed { error: PresentableError::FileWriteFailed },
        },
        ExtractStageView::Close => ProgressView::Done,
    }
}

/// Writes the value stored under `key` to the file `out_file`, byte for
/// byte.
///
/// The file is created only once the value is there: a key that is not in the
/// database leaves the file system as it was.
pub fn extract_key(stage: ExtractStage, event: Event, key: &str, out_file: &str) -> (progress:
    Progress<ExtractStage>)
    ensures
        progress@ == extract_step(stage@, event@, key@, out_file@),
{
    match stage {
        ExtractStage::Pending => Progress::Next {
            stage: ExtractStage::Transaction,
            action: Action::BeginRead,
        },
        ExtractStage::Transaction => match event {
            Event::Done => Progress::Next {
                stage: ExtractStage::Lookup,
                action: Action::Get { key: String::from_str(key) },
            },
            _ => Progress::Failed {
                error: PresentableError::TransactionCreateFailed(AccessMode::ReadOnly),
            },
        },
        ExtractStage::Lookup => match event {
            Event::Value { bytes } => Progress::Next {
                stage: ExtractStage::Create { bytes },
                action: Action::CreateFile { path: String::from_str(out_file) },
            },
            _ => Progress::Failed { error: PresentableError::KeyNotFound },
        },
        ExtractStage::Create { bytes } => match event {
            Event::Done => Progress::Next {
                stage: ExtractStage::Write,
                action: Action::WriteFile { bytes },
            },
            _ => Progress::Failed { error: PresentableError::FileCreateFailed },
        },
        ExtractStage::Write => match event {
            Event::Done => Progress::Next { stage: ExtractStage::Close, action: Action::EndRead },
            _ => Progress::Failed { error: PresentableError::FileWriteFailed },
        },
        ExtractStage::Close => Progress::Done,
    }
}

/// Where the extraction of every key stands: at the answer it waits for.
#[derive(Clone, Debug, PartialEq, Eq)]
pub enum SweepStage {
    Pending,
    Transaction,
    Cursor,
    Scan,
    /// The value of the record reported last, until it is written.
    Create { bytes: Vec<u8> },
    Write,
    Close,
}

/// What a [`SweepStage`] stands for.
pub enum SweepStageView {
    Pending,
    Transaction,
    Cursor,
    Scan,
    Create { bytes: Seq<u8> },
    Write,
    Close,
}

impl View for SweepStage {
    type V = SweepStageView;

    open spec fn view(&self) -> SweepStageView {
        match *self {
            SweepStage::Pending => SweepStageView::Pending,
            SweepStage::Transaction => SweepStageView::Transaction,
            SweepStage::Cursor => SweepStageView::Cursor,
            SweepStage::Scan => SweepStageView::Scan,
            SweepStage::Create { bytes } => SweepStageView::Create { bytes: bytes@ },
            SweepStage::Write => SweepStageView::Write,
            SweepStage::Close => SweepStageView::Close,
        }
    }
}

/// Where the extraction of every key goes from `stage` on `event`.
pub open spec fn sweep_step(stage: SweepStageView, event: EventView) -> ProgressView<
    SweepStageView,
> {
    match stage {
        SweepStageView::Pending => ProgressView::Next {
            stage: SweepStageView::Transaction,
            action: ActionView::BeginRead,
        },
        SweepStageView::Transaction => match event {
            EventView::Done => ProgressView::Next {
                stage: SweepStageView::Cursor,
                action: ActionView::OpenCursor,
            },
            _ => ProgressView::Failed {
                error: PresentableError::TransactionCreateFailed(AccessMode::ReadOnly),
            },
        },
        SweepStageView::Cursor => match event {
            EventView::Done => ProgressView::Next {
                stage: SweepStageView::Scan,
                action: ActionView::ReadFirst,
            },
            _ => ProgressView::Failed { error: PresentableError::CursorOpenFailed },
        },
        SweepStageView::Scan => match event {
            EventView::Record { key, value } => ProgressView::Next {
                stage: SweepStageView::Create { bytes: value },
                action: ActionView::CreateFile { path: key },
            },
            EventView::Exhausted => ProgressView::Next {
                stage: SweepStageView::Close,
                action: ActionView::EndRead,
            },
            EventView::Undecodable => ProgressView::Failed {
                error: PresentableError::IterationDecodeFailed,
            },
            _ => ProgressView::Failed { error: PresentableError::IterationFailed },
        },
        SweepStageView::Create { bytes } => match event {
            EventView::Done => ProgressView::Next {
                stage: SweepStageView::Write,
                action: ActionView::WriteFile { bytes },
            },
            _ => ProgressView::Failed { error: PresentableError::FileCreateFailed },
        },
        SweepStageView::Write => match event {
            EventView::Done => ProgressView::Next {
                stage: SweepStageView::Scan,
                action: ActionView::ReadNext,
            },
            _ => ProgressView::Failed { error: PresentableError::FileWriteFailed },
        },
        SweepStageView::Close => ProgressView::Done,
    }
}

/// Writes the value of every record to a file named exactly after its key,
/// in the order of the keys.
///
/// The first file that cannot be created or written ends the whole
/// operation; so does a record that the cursor cannot report.
pub fn extract_all(stage: SweepStage, event: Event) -> (progress: Progress<SweepStage>)
    ensures
        progress@ == sweep_step(stage@, event@),
{
    match stage {
        SweepStage::Pending => Progress::Next {
            stage: SweepStage::Transaction,
            action: Action::BeginRead,
        },
        SweepStage::Transaction => match event {
            Event::Done => Progress::Next { stage: SweepStage::Cursor, action: Action::OpenCursor },
            _ => Progress::Failed {
                error: PresentableError::TransactionCreateFailed(AccessMode::ReadOnly),
            },
        },
        SweepStage::Cursor => match event {
            Event::Done => Progress::Next { stage: SweepStage::Scan, action: Action::ReadFirst },
            _ => Progress::Failed { error: PresentableError::CursorOpenFailed },
        },
        SweepStage::Scan => match event {
            Event::Record { key, value } => Progress::Next {
                stage: SweepStage::Create { bytes: value },
                action: Action::CreateFile { path: key },
            },
            Event::Exhausted => Progress::Next {
                stage: SweepStage::Close,
                action: Action::EndRead,
            },
            Event::Undecodable => Progress::Failed {
                error: PresentableError::IterationDecodeFailed,
            },
            _ => Progress::Failed { error: PresentableError::IterationFailed },
        },
        SweepStage::Create { bytes } => match event {
            Event::Done => Progress::Next {
                stage: SweepStage::Write,
                action: Action::WriteFile { bytes },
            },
            _ => Progress::Failed { error: PresentableError::FileCreateFailed },
        },
        SweepStage::Write => match event {
            Event::Done => Progress::Next { stage: SweepStage::Scan, action: Action::ReadNext },
            _ => Progress::Failed { error: PresentableError::FileWriteFailed },
        },
        SweepStage::Close => Progress::Done,
    }
}

/// Where the insertion of a file stands: at the answer it waits for.
#[derive(Clone, Debug, PartialEq, Eq)]
pub enum InsertStage {
    Pending,
    Open,
    Read,
    /// The bytes of the file, until they are stored.
    Transaction { bytes: Vec<u8> },
    Put,
    Commit,
}

/// What an [`InsertStage`] stands for.
pub enum InsertStageView {
    Pending,
    Open,
    Read,
    Transaction { bytes: Seq<u8> },
    Put,
    Commit,
}

impl View for InsertStage {
    type V = InsertStageView;

    open spec fn view(&self) -> InsertStageView {
        match *self {
            InsertStage::Pending => InsertStageView::Pending,
            InsertStage::Open => InsertStageView::Open,
            InsertStage::Read => InsertStageView::Read,
            InsertStage::Transaction { bytes } => InsertStageView::Transaction { bytes: bytes@ },
            InsertStage::Put => InsertStageView::Put,
            InsertStage::Commit => InsertStageView::Commit,
        }
    }
}

/// Where the insertion of the file `file_name` goes from `stage` on `event`.
pub open spec fn insert_step(stage: InsertStageView, event: EventView, file_name: Seq<char>)
    -> ProgressView<InsertStageView> {
    match stage {
        InsertStageView::Pending => ProgressView::Next {
            stage: InsertStageView::Open,
            action: ActionView::OpenFile { path: file_name },
        },
        InsertStageView::Open => match event {
            EventView::Done => ProgressView::Next {
                stage: InsertStageView::Read,
                action: ActionView::ReadFile,
            },
            _ => ProgressView::Failed { error: PresentableError::FileOpenFailed },
        },
        InsertStageView::Read => match event {
            EventView::Value { bytes } => ProgressView::Next {
                stage: InsertStageView::Transaction { bytes },
                action: ActionView::BeginWrite,
            },
            _ => ProgressView::Failed { error: PresentableError::FileReadFailed },
        },
        InsertStageView::Transaction { bytes } => match event {
            EventView::Done => ProgressView::Next {
                stage: InsertStageView::Put,
                action: ActionView::Put { key: file_name, value: bytes },
            },
            _ => ProgressView::Failed {
                error: PresentableError::TransactionCreateFailed(AccessMode::ReadWrite),
            },
        },
        InsertStageView::Put => match event {
            EventView::Done => ProgressView::Next {
                stage: InsertStageView::Commit,
                action: ActionView::Commit,
            },
            _ => ProgressView::Failed { error: PresentableError::PutFailed },
        },
        InsertStageView::Commit => match event {
            EventView::Done => ProgressView::Done,
            _ => ProgressView::Failed { error: PresentableError::TransactionCommitFailed },
        },
    }
}

/// Stores the bytes of the file `file_name` under the key `file_name`,
/// replacing what was stored there, and commits.
///
/// The file is read whole before the write transaction begins. The
/// transaction is committed once, after the one put succeeded; any failure
/// before that leaves it uncommitted.
pub fn insert(stage: InsertStage, event: Event, file_name: &str) -> (progress: Progress<
    InsertStage,
>)
    ensures
        progress@ == insert_step(stage@, event@, file_name@),
{
    match stage {
        InsertStage::Pending => Progress::Next {
            stage: InsertStage::Open,
            action: Action::OpenFile { path: String::from_str(file_name) },
        },
        InsertStage::Open => match event {
            Event::Done => Progress::Next { stage: InsertStage::Read, action: Action::ReadFile },
            _ => Progress::Failed { error: PresentableError::FileOpenFailed },
        },
        InsertStage::Read => match event {
            Event::Value { bytes } => Progress::Next {
                stage: InsertStage::Transaction { bytes },
                action: Action::BeginWrite,
            },
            _ => Progress::Failed { error: PresentableError::FileReadFailed },
        },
        InsertStage::Transaction { bytes } => match event {
            Event::Done => Progress::Next {
                stage: InsertStage::Put,
                action: Action::Put { key: String::from_str(file_name), value: bytes },
            },
            _ => Progress::Failed {
                error: PresentableError::TransactionCreateFailed(AccessMode::ReadWrite),
            },
        },
        InsertStage::Put => match event {
            Event::Done => Progress::Next { stage: InsertStage::Commit, action: Action::Commit },
            _ => Progress::Failed { error: PresentableError::PutFailed },
        },
        InsertStage::Commit => match event {
            Event::Done => Progress::Done,
            _ => Progress::Failed { error: PresentableError::TransactionCommitFailed },
        },
    }
}

} // verus!
