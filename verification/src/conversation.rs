//! A session seen from outside: the actions it asks for, given the answers
//! it gets.
use vstd::prelude::*;
use crate::config::ConfigView;
use crate::error::PresentableError;
use crate::listing::{law_table_shape, table, EntryView};
use crate::protocol::{ActionView, EventView};
use crate::operations::{
    ExtractStageView, InsertStageView, ListStageView, OpenStage, SweepStageView,
    FILE_PERMISSIONS, MAX_DATABASES,
};
use crate::session::{fresh, session_step, SessionView, StageView};

verus! {

/// One turn of the conversation: what the session asked for, and what the
/// host reported of it.
pub struct Exchange {
    pub action: ActionView,
    pub answer: EventView,
}

/// The session once the host has given `answers`, one to each action in
/// turn, and the action that it asks for then.
pub open spec fn after(config: ConfigView, answers: Seq<EventView>) -> (SessionView, ActionView)
    decreases answers.len(),
{
    if answers.len() == 0 {
        session_step(fresh(config), EventView::Start)
    } else {
        session_step(after(config, answers.drop_last()).0, answers.last())
    }
}

/// The turn that the last of `answers` completes.
pub open spec fn last_exchange(config: ConfigView, answers: Seq<EventView>) -> Exchange
    recommends
        answers.len() > 0,
{
    Exchange { action: after(config, answers.drop_last()).1, answer: answers.last() }
}

/// Whether `action` is the one that a session at this stage waits to hear
/// of.
pub open spec fn awaited(session: SessionView, action: ActionView) -> bool {
    let config = session.config;
    match session.stage {
        StageView::Open(OpenStage::Pending) => false,
        StageView::Open(OpenStage::Environment) => action == (ActionView::OpenEnvironment {
            path: config.database_dir,
            mode: config.mode(),
            max_databases: MAX_DATABASES,
            permissions: FILE_PERMISSIONS,
        }),
        StageView::Open(OpenStage::Database) => action == (ActionView::OpenDatabase {
            name: config.database,
        }),
        StageView::List(ListStageView::Pending) => false,
        StageView::List(ListStageView::Transaction) => action is BeginRead,
        StageView::List(ListStageView::Cursor) => action is OpenCursor,
        StageView::List(ListStageView::Scan { entries }) => (action is ReadFirst && entries.len()
            == 0) || action is ReadNext,
        StageView::List(ListStageView::Print) => action is Print,
        StageView::List(ListStageView::Close) => action is EndRead,
        StageView::Extract(ExtractStageView::Pending) => false,
        StageView::Extract(ExtractStageView::Transaction) => config.extract is Some
            && action is BeginRead,
        StageView::Extract(ExtractStageView::Lookup) => config.extract matches Some(key)
            && action == (ActionView::Get { key }),
        StageView::Extract(ExtractStageView::Create { .. }) => config.extract matches Some(key)
            && action == (ActionView::CreateFile { path: config.output_path(key) }),
        StageView::Extract(ExtractStageView::Write) => config.extract is Some
            && action is WriteFile,
        StageView::Extract(ExtractStageView::Close) => config.extract is Some
            && action is EndRead,
        StageView::Sweep(SweepStageView::Pending) => false,
        StageView::Sweep(SweepStageView::Transaction) => action is BeginRead,
        StageView::Sweep(SweepStageView::Cursor) => action is OpenCursor,
        StageView::Sweep(SweepStageView::Scan) => action is ReadFirst || action is ReadNext,
        StageView::Sweep(SweepStageView::Create { .. }) => action is CreateFile,
        StageView::Sweep(SweepStageView::Write) => action is WriteFile,
        StageView::Sweep(SweepStageView::Close) => action is EndRead,
        StageView::Insert(InsertStageView::Pending) => false,
        StageView::Insert(InsertStageView::Open) => config.insert matches Some(path) && action == (
        ActionView::OpenFile { path }),
        StageView::Insert(InsertStageView::Read) => config.insert is Some && action is ReadFile,
        StageView::Insert(InsertStageView::Transaction { .. }) => config.insert is Some
            && action is BeginWrite,
        StageView::Insert(InsertStageView::Put) => config.insert matches Some(path)
            && action matches ActionView::Put { key, .. } && key == path,
        StageView::Insert(InsertStageView::Commit) => config.insert is Some && action is Commit,
        StageView::Finished(result) => action == (ActionView::Finish { result }),
    }
}

/// Every step leaves the session waiting for the very action it asked for,
/// and with the configuration it had.
pub proof fn lemma_step_awaited(session: SessionView, event: EventView)
    ensures
        awaited(session_step(session, event).0, session_step(session, event).1),
        session_step(session, event).0.config == session.config,
{
}

/// At every point of a conversation the session waits for the action it
/// asked for last, and has the configuration it began with.
pub proof fn lemma_after_awaited(config: ConfigView, answers: Seq<EventView>)
    ensures
        awaited(after(config, answers).0, after(config, answers).1),
        after(config, answers).0.config == config,
    decreases answers.len(),
{
    if answers.len() == 0 {
        lemma_step_awaited(fresh(config), EventView::Start);
    } else {
        lemma_after_awaited(config, answers.drop_last());
        lemma_step_awaited(after(config, answers.drop_last()).0, answers.last());
    }
}

/// A session that has ended stays ended, with the same result, whatever it
/// is told.
pub proof fn lemma_finished_stays(config: ConfigView, answers: Seq<EventView>, i: int)
    requires
        0 <= i <= answers.len(),
        after(config, answers.take(i)).0.stage is Finished,
    ensures
        after(config, answers).0.stage == after(config, answers.take(i)).0.stage,
        after(config, answers).1 == after(config, answers.take(i)).1,
    decreases answers.len(),
{
    lemma_after_awaited(config, answers.take(i));
    if answers.len() == i {
        assert(answers.take(i) =~= answers);
    } else {
        assert(answers.drop_last().take(i) =~= answers.take(i));
        lemma_finished_stays(config, answers.drop_last(), i);
        lemma_after_awaited(config, answers.drop_last());
    }
}

/// Whether `action` reads or writes a file.
pub open spec fn touches_files(action: ActionView) -> bool {
    action is CreateFile || action is WriteFile || action is OpenFile || action is ReadFile
}

/// Whether any action of the conversation so far, the one asked for last
/// included, reads or writes a file.
pub open spec fn files_touched(config: ConfigView, answers: Seq<EventView>) -> bool
    decreases answers.len(),
{
    touches_files(after(config, answers).1) || (answers.len() > 0 && files_touched(
        config,
        answers.drop_last(),
    ))
}

/// Whether the session has not yet looked up the key to extract: it is still
/// opening, listing, or about to look up.
pub open spec fn before_lookup(stage: StageView) -> bool {
    match stage {
        StageView::Open(_) => true,
        StageView::List(_) => true,
        StageView::Extract(ExtractStageView::Pending) => true,
        StageView::Extract(ExtractStageView::Transaction) => true,
        StageView::Extract(ExtractStageView::Lookup) => true,
        _ => false,
    }
}

/// Up to the lookup of the key to extract, a session leaves the files alone.
pub proof fn lemma_no_files_before_lookup(config: ConfigView, answers: Seq<EventView>)
    requires
        before_lookup(after(config, answers).0.stage),
    ensures
        !files_touched(config, answers),
    decreases answers.len(),
{
    lemma_after_awaited(config, answers);
    if answers.len() > 0 {
        let earlier = after(config, answers.drop_last()).0;
        lemma_after_awaited(config, answers.drop_last());
        assert(before_lookup(earlier.stage));
        lemma_no_files_before_lookup(config, answers.drop_last());
    }
}

/// Once a session has ended without having touched a file, it never touches
/// one.
pub proof fn lemma_no_files_after_end(config: ConfigView, answers: Seq<EventView>, i: int)
    requires
        0 <= i <= answers.len(),
        after(config, answers.take(i)).0.stage is Finished,
        !files_touched(config, answers.take(i)),
    ensures
        !files_touched(config, answers),
    decreases answers.len(),
{
    if answers.len() == i {
        assert(answers.take(i) =~= answers);
    } else {
        assert(answers.drop_last().take(i) =~= answers.take(i));
        lemma_no_files_after_end(config, answers.drop_last(), i);
        lemma_finished_stays(config, answers, i);
        lemma_after_awaited(config, answers.take(i));
    }
}

/// A key that is not in the database: the session ends with `KeyNotFound`,
/// and from its first action to its last it reads and writes no file.
///
/// Whatever the host reports of a lookup, short of the value, counts as the
/// key not being there.
pub proof fn law_absent_key(config: ConfigView, answers: Seq<EventView>, i: int)
    requires
        0 <= i < answers.len(),
        after(config, answers.take(i)).1 is Get,
        !(answers[i] is Value),
    ensures
        after(config, answers).1 == (ActionView::Finish {
            result: Err(PresentableError::KeyNotFound),
        }),
        !files_touched(config, answers),
{
    let asked = answers.take(i);
    let told = answers.take(i + 1);
    lemma_after_awaited(config, asked);
    assert(told.drop_last() =~= asked);
    assert(told.last() == answers[i]);
    assert(after(config, asked).0.stage == StageView::Extract(ExtractStageView::Lookup));
    assert(after(config, told).1 == (ActionView::Finish {
        result: Err(PresentableError::KeyNotFound),
    }));
    lemma_no_files_before_lookup(config, asked);
    assert(!files_touched(config, told));
    lemma_finished_stays(config, answers, i + 1);
    lemma_no_files_after_end(config, answers, i + 1);
}

/// A store directory that cannot be opened: the session ends with
/// `EnvironmentOpenFailed` and the reason that the host gave, having asked
/// for nothing but the opening. It asked to open the directory read-only
/// unless a file was to be stored, and it touches no file.
pub proof fn law_refused_environment(config: ConfigView, answers: Seq<EventView>)
    requires
        answers.len() > 0,
        !(answers[0] is Done),
    ensures
        after(config, answers.take(0)).1 == (ActionView::OpenEnvironment {
            path: config.database_dir,
            mode: config.mode(),
            max_databases: MAX_DATABASES,
            permissions: FILE_PERMISSIONS,
        }),
        config.insert is None ==> config.mode() == crate::error::AccessMode::ReadOnly,
        after(config, answers).1 == (ActionView::Finish {
            result: Err(
                PresentableError::EnvironmentOpenFailed(
                    match answers[0] {
                        EventView::Failed { fault } => fault,
                        _ => crate::error::Fault::Unspecified,
                    },
                ),
            ),
        }),
        !files_touched(config, answers),
{
    let none = answers.take(0);
    let first = answers.take(1);
    assert(first.drop_last() =~= none);
    assert(first.last() == answers[0]);
    assert(after(config, first).0.stage is Finished);
    lemma_no_files_before_lookup(config, none);
    assert(!files_touched(config, first));
    lemma_finished_stays(config, answers, 1);
    lemma_no_files_after_end(config, answers, 1);
}

/// The entries of a listing for which a run of answers stands, where each of
/// the answers is a record: its key, and the length of its value.
pub open spec fn reported(answers: Seq<EventView>) -> Seq<EntryView> {
    Seq::new(
        answers.len(),
        |i: int|
            match answers[i] {
                EventView::Record { key, value } => EntryView { key, size: value.len() },
                _ => EntryView { key: Seq::empty(), size: 0 },
            },
    )
}

/// While the cursor reports records, the listing collects one entry for
/// each, in the order in which they come.
proof fn lemma_listing_collects(config: ConfigView, answers: Seq<EventView>, first: int, count: int)
    requires
        0 <= first,
        0 <= count,
        first + count <= answers.len(),
        after(config, answers.take(first)).0.stage is List,
        after(config, answers.take(first)).1 is ReadFirst,
        forall|i: int| first <= i < first + count ==> answers[i] is Record,
    ensures
        after(config, answers.take(first + count)).0.stage == StageView::List(
            ListStageView::Scan { entries: reported(answers.subrange(first, first + count)) },
        ),
    decreases count,
{
    if count == 0 {
        lemma_after_awaited(config, answers.take(first));
        assert(reported(answers.subrange(first, first)) =~= Seq::<EntryView>::empty());
        let stage = after(config, answers.take(first)).0.stage;
        assert(stage matches StageView::List(ListStageView::Scan { entries }) && entries
            =~= Seq::<EntryView>::empty());
    } else {
        lemma_listing_collects(config, answers, first, count - 1);
        let told = answers.take(first + count);
        assert(told.drop_last() =~= answers.take(first + count - 1));
        assert(told.last() == answers[first + count - 1]);
        let before = reported(answers.subrange(first, first + count - 1));
        let now = reported(answers.subrange(first, first + count));
        assert(now =~= before.push(now.last()));
    }
}

/// A listing shows every record: when the cursor has reported N records and
/// then its end, what is printed is the table of those N records in the
/// order in which they came, which has N lines under its two heading lines,
/// every line of the same width.
pub proof fn law_listing_shows_every_record(
    config: ConfigView,
    answers: Seq<EventView>,
    first: int,
    count: int,
)
    requires
        0 <= first,
        0 <= count,
        first + count < answers.len(),
        after(config, answers.take(first)).0.stage is List,
        after(config, answers.take(first)).1 is ReadFirst,
        forall|i: int| first <= i < first + count ==> answers[i] is Record,
        answers[first + count] is Exhausted,
    ensures
        after(config, answers.take(first + count + 1)).1 == (ActionView::Print {
            lines: table(reported(answers.subrange(first, first + count))),
        }),
        table(reported(answers.subrange(first, first + count))).len() == count + 2,
{
    lemma_listing_collects(config, answers, first, count);
    let told = answers.take(first + count + 1);
    assert(told.drop_last() =~= answers.take(first + count));
    assert(told.last() == answers[first + count]);
    law_table_shape(reported(answers.subrange(first, first + count)));
}

} // verus!
