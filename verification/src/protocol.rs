//! The conversation between a session and its host.
//!
//! The session never touches the store or the file system. It names the next
//! thing to do as an [`Action`]; the host does it and reports what came of it
//! as an [`Event`].
use vstd::prelude::*;
use crate::config::text_of;
use crate::error::{AccessMode, Fault, PresentableError};
use crate::listing::lines_view;

verus! {

/// What the host is asked to do next.
#[derive(Debug, PartialEq, Eq)]
pub enum Action {
    /// Open the store directory at `path`, holding at most `max_databases`
    /// named databases open; files that the engine creates get the
    /// permission bits `permissions`.
    OpenEnvironment { path: String, mode: AccessMode, max_databases: u32, permissions: u32 },
    /// Open the database `name` of the environment, or the unnamed one.
    OpenDatabase { name: Option<String> },
    /// Begin a read transaction.
    BeginRead,
    /// Open a cursor on the database, inside the read transaction.
    OpenCursor,
    /// Move the cursor to the first record and report it.
    ReadFirst,
    /// Move the cursor to the record after the last one reported, and report
    /// it.
    ReadNext,
    /// Look up the value stored under `key`, inside the read transaction.
    Get { key: String },
    /// Release the cursor, if there is one, and then the read transaction.
    EndRead,
    /// Create the file at `path`, or empty it if it exists.
    CreateFile { path: String },
    /// Write `bytes` to the file created last, and close it.
    WriteFile { bytes: Vec<u8> },
    /// Open the file at `path` for reading.
    OpenFile { path: String },
    /// Read the file opened last to its end, and close it.
    ReadFile,
    /// Begin a write transaction.
    BeginWrite,
    /// Store `value` under `key` inside the write transaction, replacing what
    /// was stored there.
    Put { key: String, value: Vec<u8> },
    /// Commit the write transaction.
    Commit,
    /// Print the lines, each on a line of its own.
    Print { lines: Vec<String> },
    /// Release whatever is still held, innermost first, without committing,
    /// and end with `result`.
    Finish { result: Result<(), PresentableError> },
}

/// What an [`Action`] stands for.
pub enum ActionView {
    OpenEnvironment { path: Seq<char>, mode: AccessMode, max_databases: u32, permissions: u32 },
    OpenDatabase { name: Option<Seq<char>> },
    BeginRead,
    OpenCursor,
    ReadFirst,
    ReadNext,
    Get { key: Seq<char> },
    EndRead,
    CreateFile { path: Seq<char> },
    WriteFile { bytes: Seq<u8> },
    OpenFile { path: Seq<char> },
    ReadFile,
    BeginWrite,
    Put { key: Seq<char>, value: Seq<u8> },
    Commit,
    Print { lines: Seq<Seq<char>> },
    Finish { result: Result<(), PresentableError> },
}

impl View for Action {
    type V = ActionView;

    open spec fn view(&self) -> ActionView {
        match *self {
            Action::OpenEnvironment { path, mode, max_databases, permissions } =>
                ActionView::OpenEnvironment { path: path@, mode, max_databases, permissions },
            Action::OpenDatabase { name } => ActionView::OpenDatabase { name: text_of(name) },
            Action::BeginRead => ActionView::BeginRead,
            Action::OpenCursor => ActionView::OpenCursor,
            Action::ReadFirst => ActionView::ReadFirst,
            Action::ReadNext => ActionView::ReadNext,
            Action::Get { key } => ActionView::Get { key: key@ },
            Action::EndRead => ActionView::EndRead,
            Action::CreateFile { path } => ActionView::CreateFile { path: path@ },
            Action::WriteFile { bytes } => ActionView::WriteFile { bytes: bytes@ },
            Action::OpenFile { path } => ActionView::OpenFile { path: path@ },
            Action::ReadFile => ActionView::ReadFile,
            Action::BeginWrite => ActionView::BeginWrite,
            Action::Put { key, value } => ActionView::Put { key: key@, value: value@ },
            Action::Commit => ActionView::Commit,
            Action::Print { lines } => ActionView::Print { lines: lines_view(lines@) },
            Action::Finish { result } => ActionView::Finish { result },
        }
    }
}

/// What the host reports of the action it was asked for.
#[derive(Clone, Debug, PartialEq, Eq)]
pub enum Event {
    /// Nothing was asked yet.
    Start,
    /// The action was done, and there is nothing to hand back.
    Done,
    /// The action failed.
    Failed { fault: Fault },
    /// The cursor stands on a record, and this is it.
    Record { key: String, value: Vec<u8> },
    /// The cursor has no record to stand on: the database is empty, or the
    /// last record was reported before.
    Exhausted,
    /// The cursor stands on a record whose key is not text.
    Undecodable,
    /// The bytes that were looked up or read.
    Value { bytes: Vec<u8> },
}

/// What an [`Event`] stands for.
pub enum EventView {
    Start,
    Done,
    Failed { fault: Fault },
    Record { key: Seq<char>, value: Seq<u8> },
    Exhausted,
    Undecodable,
    Value { bytes: Seq<u8> },
}

impl View for Event {
    type V = EventView;

    open spec fn view(&self) -> EventView {
        match *self {
            Event::Start => EventView::Start,
            Event::Done => EventView::Done,
            Event::Failed { fault } => EventView::Failed { fault },
            Event::Record { key, value } => EventView::Record { key: key@, value: value@ },
            Event::Exhausted => EventView::Exhausted,
            Event::Undecodable => EventView::Undecodable,
            Event::Value { bytes } => EventView::Value { bytes: bytes@ },
        }
    }
}

/// How one operation goes on after an event.
#[derive(Debug, PartialEq, Eq)]
pub enum Progress<S> {
    /// The host performs `action` and comes back, with what it reports, at
    /// `stage`.
    Next { stage: S, action: Action },
    /// The operation is complete and holds nothing open.
    Done,
    /// The operation failed, and with it the session.
    Failed { error: PresentableError },
}

/// What a [`Progress`] stands for.
pub enum ProgressView<S> {
    Next { stage: S, action: ActionView },
    Done,
    Failed { error: PresentableError },
}

impl<S: View> View for Progress<S> {
    type V = ProgressView<S::V>;

    open spec fn view(&self) -> ProgressView<S::V> {
        match *self {
            Progress::Next { stage, action } => ProgressView::Next { stage: stage@, action: action@ },
            Progress::Done => ProgressView::Done,
            Progress::Failed { error } => ProgressView::Failed { error },
        }
    }
}

} // verus!
