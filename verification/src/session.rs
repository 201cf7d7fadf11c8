//! A session: the operations that were asked for, one after the other.
use vstd::prelude::*;
use crate::config::{Config, ConfigView};
use crate::error::PresentableError;
use crate::operations::{
    extract_all, extract_key, extract_step, get_database, insert, insert_step, list_step,
    open_step, print_list, sweep_step, ExtractStage, ExtractStageView, InsertStage,
    InsertStageView, ListStage, ListStageView, OpenStage, SweepStage, SweepStageView,
};
use crate::protocol::{Action, ActionView, Event, EventView, Progress, ProgressView};

verus! {

/// Where a session stands: in one of its operations, or at its end.
#[derive(Debug, PartialEq, Eq)]
pub enum Stage {
    Open(OpenStage),
    List(ListStage),
    Extract(ExtractStage),
    Sweep(SweepStage),
    Insert(InsertStage),
    Finished(Result<(), PresentableError>),
}

/// What a [`Stage`] stands for.
pub enum StageView {
    Open(OpenStage),
    List(ListStageView),
    Extract(ExtractStageView),
    Sweep(SweepStageView),
    Insert(InsertStageView),
    Finished(Result<(), PresentableError>),
}

impl View for Stage {
    type V = StageView;

    open spec fn view(&self) -> StageView {
        match *self {
            Stage::Open(stage) => StageView::Open(stage),
            Stage::List(stage) => StageView::List(stage@),
            Stage::Extract(stage) => StageView::Extract(stage@),
            Stage::Sweep(stage) => StageView::Sweep(stage@),
            Stage::Insert(stage) => StageView::Insert(stage@),
            Stage::Finished(result) => StageView::Finished(result),
        }
    }
}

/// One run of the requested work: what was asked for, and how far it has
/// come.
#[derive(Debug, PartialEq, Eq)]
pub struct Session {
    pub config: Config,
    pub stage: Stage,
}

/// What a [`Session`] stands for.
pub struct SessionView {
    pub config: ConfigView,
    pub stage: StageView,
}

impl View for Session {
    type V = SessionView;

    open spec fn view(&self) -> SessionView {
        SessionView { config: self.config@, stage: self.stage@ }
    }
}

/// The session of `config` before anything was asked of the host.
pub open spec fn fresh(config: ConfigView) -> SessionView {
    SessionView { config, stage: StageView::Open(OpenStage::Pending) }
}

/// The session ends with `result`.
pub open spec fn finish(config: ConfigView, result: Result<(), PresentableError>) -> (
    SessionView,
    ActionView,
) {
    (SessionView { config, stage: StageView::Finished(result) }, ActionView::Finish { result })
}

/// The session after a step of the insertion, the last operation.
pub open spec fn settle_insert(config: ConfigView, progress: ProgressView<InsertStageView>) -> (
    SessionView,
    ActionView,
) {
    match progress {
        ProgressView::Next { stage, action } => (
            SessionView { config, stage: StageView::Insert(stage) },
            action,
        ),
        ProgressView::Done => finish(config, Ok(())),
        ProgressView::Failed { error } => finish(config, Err(error)),
    }
}

/// The session as it turns to the insertion, if one was asked for.
pub open spec fn begin_insert(config: ConfigView) -> (SessionView, ActionView) {
    match config.insert {
        Some(file_name) => settle_insert(
            config,
            insert_step(InsertStageView::Pending, EventView::Start, file_name),
        ),
        None => finish(config, Ok(())),
    }
}

/// The session after a step of the extraction of every key.
pub open spec fn settle_sweep(config: ConfigView, progress: ProgressView<SweepStageView>) -> (
    SessionView,
    ActionView,
) {
    match progress {
        ProgressView::Next { stage, action } => (
            SessionView { config, stage: StageView::Sweep(stage) },
            action,
        ),
        ProgressView::Done => begin_insert(config),
        ProgressView::Failed { error } => finish(config, Err(error)),
    }
}

/// The session as it turns to the extraction of every key, if it was asked
/// for.
pub open spec fn begin_sweep(config: ConfigView) -> (SessionView, ActionView) {
    if config.extract_all {
        settle_sweep(config, sweep_step(SweepStageView::Pending, EventView::Start))
    } else {
        begin_insert(config)
    }
}

/// The session after a step of the extraction of one key.
pub open spec fn settle_extract(config: ConfigView, progress: ProgressView<ExtractStageView>) -> (
    SessionView,
    ActionView,
) {
    match progress {
        ProgressView::Next { stage, action } => (
            SessionView { config, stage: StageView::Extract(stage) },
            action,
        ),
        ProgressView::Done => begin_sweep(config),
        ProgressView::Failed { error } => finish(config, Err(error)),
    }
}

/// A step of the extraction of the one key that was asked for. Where none
/// was, there is nothing to do.
pub open spec fn extract_progress(config: ConfigView, stage: ExtractStageView, event: EventView)
    -> ProgressView<ExtractStageView> {
    match config.extract {
        Some(key) => extract_step(stage, event, key, config.output_path(key)),
        None => ProgressView::Done,
    }
}

/// A step of the insertion of the one file that was asked for. Where none
/// was, there is nothing to do.
pub open spec fn insert_progress(config: ConfigView, stage: InsertStageView, event: EventView)
    -> ProgressView<InsertStageView> {
    match config.insert {
        Some(file_name) => insert_step(stage, event, file_name),
        None => ProgressView::Done,
    }
}

/// The session as it turns to the extraction of one key, if one was asked
/// for.
pub open spec fn begin_extract(config: ConfigView) -> (SessionView, ActionView) {
    if config.extract is Some {
        settle_extract(
            config,
            extract_progress(config, ExtractStageView::Pending, EventView::Start),
        )
    } else {
        begin_sweep(config)
    }
}

/// The session after a step of the listing.
pub open spec fn settle_list(config: ConfigView, progress: ProgressView<ListStageView>) -> (
    SessionView,
    ActionView,
) {
    match progress {
        ProgressView::Next { stage, action } => (
            SessionView { config, stage: StageView::List(stage) },
            action,
        ),
        ProgressView::Done => begin_extract(config),
        ProgressView::Failed { error } => finish(config, Err(error)),
    }
}

/// The session as it turns to the listing, if it was asked for.
pub open spec fn begin_list(config: ConfigView) -> (SessionView, ActionView) {
    if config.list {
        settle_list(config, list_step(ListStageView::Pending, EventView::Start))
    } else {
        begin_extract(config)
    }
}

/// The session after a step of the opening of the database.
pub open spec fn settle_open(config: ConfigView, progress: ProgressView<OpenStage>) -> (
    SessionView,
    ActionView,
) {
    match progress {
        ProgressView::Next { stage, action } => (
            SessionView { config, stage: StageView::Open(stage) },
            action,
        ),
        ProgressView::Done => begin_list(config),
        ProgressView::Failed { error } => finish(config, Err(error)),
    }
}

/// Where a session goes on `event`, and what it asks of the host next.
///
/// The database is opened first, for writing exactly when a file is to be
/// stored. Then come, each only if asked for and in this order: the listing,
/// the extraction of one key, the extraction of every key, the insertion.
/// The first failure ends the session with its error; a session that has
/// ended stays as it is.
pub open spec fn session_step(session: SessionView, event: EventView) -> (SessionView, ActionView) {
    let config = session.config;
    match session.stage {
        StageView::Open(stage) => settle_open(
            config,
            open_step(stage, event, config.database_dir, config.database, config.insert is Some),
        ),
        StageView::List(stage) => settle_list(config, list_step(stage, event)),
        StageView::Extract(stage) => settle_extract(config, extract_progress(config, stage, event)),
        StageView::Sweep(stage) => settle_sweep(config, sweep_step(stage, event)),
        StageView::Insert(stage) => settle_insert(config, insert_progress(config, stage, event)),
        StageView::Finished(result) => finish(config, result),
    }
}

/// Ends the session with `result`.
fn finished(config: Config, result: Result<(), PresentableError>) -> (next: (Session, Action))
    ensures
        (next.0@, next.1@) == finish(config@, result),
{
    (Session { config, stage: Stage::Finished(result) }, Action::Finish { result })
}

/// Takes the session on after a step of the insertion.
fn settled_insert(config: Config, progress: Progress<InsertStage>) -> (next: (Session, Action))
    ensures
        (next.0@, next.1@) == settle_insert(config@, progress@),
{
    match progress {
        Progress::Next { stage, action } => (Session { config, stage: Stage::Insert(stage) }, action),
        Progress::Done => finished(config, Ok(())),
        Progress::Failed { error } => finished(config, Err(error)),
    }
}

/// A step of the insertion that `config` asks for.
fn insert_of(config: &Config, stage: InsertStage, event: Event) -> (progress: Progress<
    InsertStage,
>)
    ensures
        progress@ == insert_progress(config@, stage@, event@),
{
    match &config.insert {
        Some(file_name) => insert(stage, event, file_name.as_str()),
        None => Progress::Done,
    }
}

/// Turns to the insertion, or ends the session where none was asked for.
fn begun_insert(config: Config) -> (next: (Session, Action))
    ensures
        (next.0@, next.1@) == begin_insert(config@),
{
    if config.insert.is_some() {
        let progress = insert_of(&config, InsertStage::Pending, Event::Start);
        settled_insert(config, progress)
    } else {
        finished(config, Ok(()))
    }
}

/// Takes the session on after a step of the extraction of every key.
fn settled_sweep(config: Config, progress: Progress<SweepStage>) -> (next: (Session, Action))
    ensures
        (next.0@, next.1@) == settle_sweep(config@, progress@),
{
    match progress {
        Progress::Next { stage, action } => (Session { config, stage: Stage::Sweep(stage) }, action),
        Progress::Done => begun_insert(config),
        Progress::Failed { error } => finished(config, Err(error)),
    }
}

/// Turns to the extraction of every key, or to what comes after it.
fn begun_sweep(config: Config) -> (next: (Session, Action))
    ensures
        (next.0@, next.1@) == begin_sweep(config@),
{
    if config.extract_all {
        settled_sweep(config, extract_all(SweepStage::Pending, Event::Start))
    } else {
        begun_insert(config)
    }
}

/// Takes the session on after a step of the extraction of one key.
fn settled_extract(config: Config, progress: Progress<ExtractStage>) -> (next: (Session, Action))
    ensures
        (next.0@, next.1@) == settle_extract(config@, progress@),
{
    match progress {
        Progress::Next { stage, action } => (
            Session { config, stage: Stage::Extract(stage) },
            action,
        ),
        Progress::Done => begun_sweep(config),
        Progress::Failed { error } => finished(config, Err(error)),
    }
}

/// A step of the extraction that `config` asks for.
fn extract_of(config: &Config, stage: ExtractStage, event: Event) -> (progress: Progress<
    ExtractStage,
>)
    ensures
        progress@ == extract_progress(config@, stage@, event@),
{
    match &config.extract {
        Some(key) => {
            let out_file = match &config.out_file {
                Some(path) => path.as_str(),
                None => key.as_str(),
            };
            extract_key(stage, event, key.as_str(), out_file)
        },
        None => Progress::Done,
    }
}

/// Turns to the extraction of one key, or to what comes after it.
fn begun_extract(config: Config) -> (next: (Session, Action))
    ensures
        (next.0@, next.1@) == begin_extract(config@),
{
    if config.extract.is_some() {
        let progress = extract_of(&config, ExtractStage::Pending, Event::Start);
        settled_extract(config, progress)
    } else {
        begun_sweep(config)
    }
}

/// Takes the session on after a step of the listing.
fn settled_list(config: Config, progress: Progress<ListStage>) -> (next: (Session, Action))
    ensures
        (next.0@, next.1@) == settle_list(config@, progress@),
{
    match progress {
        Progress::Next { stage, action } => (Session { config, stage: Stage::List(stage) }, action),
        Progress::Done => begun_extract(config),
        Progress::Failed { error } => finished(config, Err(error)),
    }
}

/// Turns to the listing, or to what comes after it.
fn begun_list(config: Config) -> (next: (Session, Action))
    ensures
        (next.0@, next.1@) == begin_list(config@),
{
    if config.list {
        settled_list(config, print_list(ListStage::Pending, Event::Start))
    } else {
        begun_extract(config)
    }
}

/// Takes the session on after a step of the opening of the database.
fn settled_open(config: Config, progress: Progress<OpenStage>) -> (next: (Session, Action))
    ensures
        (next.0@, next.1@) == settle_open(config@, progress@),
{
    match progress {
        Progress::Next { stage, action } => (Session { config, stage: Stage::Open(stage) }, action),
        Progress::Done => begun_list(config),
        Progress::Failed { error } => finished(config, Err(error)),
    }
}

/// A step of the opening of the database that `config` asks for.
fn open_of(config: &Config, stage: OpenStage, event: Event) -> (progress: Progress<OpenStage>)
    ensures
        progress@ == open_step(
            stage,
            event@,
            config@.database_dir,
            config@.database,
            config@.insert is Some,
        ),
{
    let database = match &config.database {
        Some(name) => Some(name.as_str()),
        None => None,
    };
    get_database(stage, event, config.database_dir.as_str(), database, config.insert.is_some())
}

impl Session {
    /// A session for `config` of which nothing has been done yet.
    pub fn new(config: Config) -> (session: Session)
        ensures
            session@ == fresh(config@),
    {
        Session { config, stage: Stage::Open(OpenStage::Pending) }
    }
}

/// Takes the session one step on: from what the host reports of the last
/// action to the next action.
///
/// The host starts with [`Event::Start`], performs each action that it is
/// handed and comes back with its event, until the action is
/// [`Action::Finish`].
pub fn run(session: Session, event: Event) -> (next: (Session, Action))
    ensures
        (next.0@, next.1@) == session_step(session@, event@),
{
    let Session { config, stage } = session;
    match stage {
        Stage::Open(stage) => {
            let progress = open_of(&config, stage, event);
            settled_open(config, progress)
        },
        Stage::List(stage) => settled_list(config, print_list(stage, event)),
        Stage::Extract(stage) => {
            let progress = extract_of(&config, stage, event);
            settled_extract(config, progress)
        },
        Stage::Sweep(stage) => settled_sweep(config, extract_all(stage, event)),
        Stage::Insert(stage) => {
            let progress = insert_of(&config, stage, event);
            settled_insert(config, progress)
        },
        Stage::Finished(result) => finished(config, result),
    }
}

} // verus!
