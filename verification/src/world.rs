//! What a conversation does to the store and to the files, for a host that
//! keeps them as maps.
use vstd::prelude::*;
use crate::config::ConfigView;
use crate::conversation::{after, last_exchange, lemma_after_awaited, Exchange};
use crate::error::PresentableError;
use crate::protocol::{ActionView, EventView};
use crate::operations::{ExtractStageView, InsertStageView, SweepStageView};
use crate::session::{SessionView, StageView};

verus! {

/// The records of a database: each key with its value.
pub type Records = Map<Seq<char>, Seq<u8>>;

/// The files of a file system: each path with its bytes.
pub type Files = Map<Seq<char>, Seq<u8>>;

/// A store with one database: the records that are committed, and the
/// records as the write transaction sees them.
pub struct StoreModel {
    pub committed: Records,
    pub staged: Records,
}

/// The store after one turn. A write transaction starts from what is
/// committed, a put replaces the value under its key inside the transaction,
/// and only a commit that succeeds makes the puts of its transaction the
/// committed records. A turn that failed changes nothing.
pub open spec fn store_step(store: StoreModel, turn: Exchange) -> StoreModel {
    if turn.answer is Done {
        match turn.action {
            ActionView::BeginWrite => StoreModel {
                committed: store.committed,
                staged: store.committed,
            },
            ActionView::Put { key, value } => StoreModel {
                committed: store.committed,
                staged: store.staged.insert(key, value),
            },
            ActionView::Commit => StoreModel { committed: store.staged, staged: store.staged },
            _ => store,
        }
    } else {
        store
    }
}

/// The store once the host has given `answers`, where `start` was committed
/// before the session.
pub open spec fn store_along(config: ConfigView, answers: Seq<EventView>, start: Records)
    -> StoreModel
    decreases answers.len(),
{
    if answers.len() == 0 {
        StoreModel { committed: start, staged: start }
    } else {
        store_step(store_along(config, answers.drop_last(), start), last_exchange(config, answers))
    }
}

/// The bytes that the host read from the file to insert, once it has read
/// it.
pub open spec fn file_read(config: ConfigView, answers: Seq<EventView>) -> Option<Seq<u8>>
    decreases answers.len(),
{
    if answers.len() == 0 {
        None
    } else {
        let turn = last_exchange(config, answers);
        match turn.answer {
            EventView::Value { bytes } if turn.action is ReadFile => Some(bytes),
            _ => file_read(config, answers.drop_last()),
        }
    }
}

/// The files, and the path of the file that was created and waits to be
/// written.
pub struct FilesModel {
    pub files: Files,
    pub created: Option<Seq<char>>,
}

/// The files after one turn. Creating a file leaves it empty, writing gives
/// the file created last its bytes. A turn that failed, and a turn that only
/// reads, changes nothing.
pub open spec fn files_step(model: FilesModel, turn: Exchange) -> FilesModel {
    if turn.answer is Done {
        match turn.action {
            ActionView::CreateFile { path } => FilesModel {
                files: model.files.insert(path, Seq::empty()),
                created: Some(path),
            },
            ActionView::WriteFile { bytes } => match model.created {
                Some(path) => FilesModel { files: model.files.insert(path, bytes), created: None },
                None => model,
            },
            _ => model,
        }
    } else {
        model
    }
}

/// The files once the host has given `answers`, where `start` were the files
/// before the session.
pub open spec fn files_along(config: ConfigView, answers: Seq<EventView>, start: Files)
    -> FilesModel
    decreases answers.len(),
{
    if answers.len() == 0 {
        FilesModel { files: start, created: None }
    } else {
        files_step(files_along(config, answers.drop_last(), start), last_exchange(config, answers))
    }
}

/// Whether the answer of this turn, if it was a lookup, is the one that
/// `records` give: the value under the key, and no value where the key is not
/// there.
pub open spec fn honest_turn(records: Records, turn: Exchange) -> bool {
    turn.action matches ActionView::Get { key } ==> if records.contains_key(key) {
        turn.answer == (EventView::Value { bytes: records[key] })
    } else {
        !(turn.answer is Value)
    }
}

/// Whether the host answered every lookup of the conversation from
/// `records`.
pub open spec fn honest_lookups(config: ConfigView, answers: Seq<EventView>, records: Records)
    -> bool
    decreases answers.len(),
{
    answers.len() > 0 ==> honest_lookups(config, answers.drop_last(), records) && honest_turn(
        records,
        last_exchange(config, answers),
    )
}

/// What holds of the store at each stage of a session.
spec fn store_invariant(
    session: SessionView,
    action: ActionView,
    store: StoreModel,
    read: Option<Seq<u8>>,
    start: Records,
) -> bool {
    match session.stage {
        StageView::Insert(InsertStageView::Transaction { bytes }) => store.committed == start
            && read == Some(bytes),
        StageView::Insert(InsertStageView::Put) => {
            &&& store.committed == start
            &&& store.staged == start
            &&& action matches ActionView::Put { value, .. }
            &&& read == Some(value)
        },
        StageView::Insert(InsertStageView::Commit) => {
            &&& store.committed == start
            &&& session.config.insert matches Some(path)
            &&& read matches Some(bytes)
            &&& store.staged == start.insert(path, bytes)
        },
        StageView::Finished(Ok(_)) => match session.config.insert {
            Some(path) => read matches Some(bytes) && store.committed == start.insert(path, bytes),
            None => store.committed == start,
        },
        _ => store.committed == start,
    }
}

proof fn lemma_store_invariant(config: ConfigView, answers: Seq<EventView>, start: Records)
    ensures
        store_invariant(
            after(config, answers).0,
            after(config, answers).1,
            store_along(config, answers, start),
            file_read(config, answers),
            start,
        ),
    decreases answers.len(),
{
    lemma_after_awaited(config, answers);
    if answers.len() > 0 {
        lemma_store_invariant(config, answers.drop_last(), start);
        lemma_after_awaited(config, answers.drop_last());
    }
}

/// A session that ends in failure leaves the store as it was: every key has
/// the value it had, and there is no new key. So does a session as long as it
/// has not ended.
///
/// The write transaction is committed only after every earlier step of the
/// insertion succeeded, and a commit that fails commits nothing.
pub proof fn law_failure_leaves_store(config: ConfigView, answers: Seq<EventView>, start: Records)
    requires
        !(after(config, answers).0.stage matches StageView::Finished(Ok(_))),
    ensures
        store_along(config, answers, start).committed == start,
{
    lemma_after_awaited(config, answers);
    lemma_store_invariant(config, answers, start);
}

/// A session that stores no file never changes the store.
pub proof fn law_reading_leaves_store(config: ConfigView, answers: Seq<EventView>, start: Records)
    requires
        config.insert is None,
    ensures
        store_along(config, answers, start).committed == start,
{
    lemma_after_awaited(config, answers);
    lemma_store_invariant(config, answers, start);
}

/// A session that stores a file and ends well has committed one change: under
/// the path of the file, as its key, stand the bytes that were read from it.
pub proof fn law_insert_stores_file(
    config: ConfigView,
    answers: Seq<EventView>,
    start: Records,
    path: Seq<char>,
)
    requires
        config.insert == Some(path),
        after(config, answers).0.stage == StageView::Finished(Ok(())),
    ensures
        file_read(config, answers) matches Some(bytes) && store_along(
            config,
            answers,
            start,
        ).committed == start.insert(path, bytes),
{
    lemma_after_awaited(config, answers);
    lemma_store_invariant(config, answers, start);
}

/// What holds of the files at each stage of a session that extracts `key`,
/// whose value is `value`, and does not extract every key.
spec fn extract_invariant(
    session: SessionView,
    action: ActionView,
    model: FilesModel,
    start: Files,
    key: Seq<char>,
    value: Seq<u8>,
) -> bool {
    let out = session.config.output_path(key);
    match session.stage {
        StageView::Open(_) | StageView::List(_) => model.files == start && model.created is None,
        StageView::Extract(ExtractStageView::Pending)
        | StageView::Extract(ExtractStageView::Transaction)
        | StageView::Extract(ExtractStageView::Lookup) => model.files == start
            && model.created is None,
        StageView::Extract(ExtractStageView::Create { bytes }) => model.files == start
            && model.created is None && bytes == value,
        StageView::Extract(ExtractStageView::Write) => action == (ActionView::WriteFile {
            bytes: value,
        }) && model.created == Some(out),
        StageView::Extract(ExtractStageView::Close) | StageView::Insert(_) | StageView::Finished(
            Ok(_),
        ) => model.files.contains_key(out) && model.files[out] == value,
        StageView::Sweep(_) => false,
        StageView::Finished(Err(_)) => true,
    }
}

proof fn lemma_extract_invariant(
    config: ConfigView,
    answers: Seq<EventView>,
    records: Records,
    start: Files,
    key: Seq<char>,
)
    requires
        config.extract == Some(key),
        !config.extract_all,
        records.contains_key(key),
        honest_lookups(config, answers, records),
    ensures
        extract_invariant(
            after(config, answers).0,
            after(config, answers).1,
            files_along(config, answers, start),
            start,
            key,
            records[key],
        ),
    decreases answers.len(),
{
    lemma_after_awaited(config, answers);
    if answers.len() > 0 {
        lemma_extract_invariant(config, answers.drop_last(), records, start, key);
        lemma_after_awaited(config, answers.drop_last());
    }
}

/// A session that extracts one key and ends well has written the value of
/// that key, byte for byte, to the out file.
///
/// This is said of a session that does not also extract every key, which
/// could write to the same file afterwards.
pub proof fn law_extract_writes_value(
    config: ConfigView,
    answers: Seq<EventView>,
    records: Records,
    start: Files,
    key: Seq<char>,
)
    requires
        config.extract == Some(key),
        !config.extract_all,
        records.contains_key(key),
        honest_lookups(config, answers, records),
        after(config, answers).0.stage == StageView::Finished(Ok(())),
    ensures
        files_along(config, answers, start).files.contains_key(config.output_path(key)),
        files_along(config, answers, start).files[config.output_path(key)] == records[key],
{
    lemma_after_awaited(config, answers);
    lemma_extract_invariant(config, answers, records, start, key);
}

/// The round trip: a file that one session stores and a later session
/// extracts, with nothing committed to the store in between, comes out with
/// the bytes that went in.
///
/// The first session stores the file `path` and ends well. The second
/// extracts the key `path` from the store as the first left it, and ends
/// well. Then the out file of the second holds exactly the bytes that the
/// first read.
pub proof fn law_round_trip(
    first: ConfigView,
    first_answers: Seq<EventView>,
    second: ConfigView,
    second_answers: Seq<EventView>,
    records: Records,
    files: Files,
    path: Seq<char>,
)
    requires
        first.insert == Some(path),
        after(first, first_answers).0.stage == StageView::Finished(Ok(())),
        second.extract == Some(path),
        !second.extract_all,
        honest_lookups(
            second,
            second_answers,
            store_along(first, first_answers, records).committed,
        ),
        after(second, second_answers).0.stage == StageView::Finished(Ok(())),
    ensures
        Some(files_along(second, second_answers, files).files[second.output_path(path)])
            == file_read(first, first_answers),
        files_along(second, second_answers, files).files.contains_key(second.output_path(path)),
{
    law_insert_stores_file(first, first_answers, records, path);
    let stored = store_along(first, first_answers, records).committed;
    law_extract_writes_value(second, second_answers, stored, files, path);
}

/// Extracting every key: each record that the cursor reports goes to a file
/// named exactly after its key, with exactly the bytes of its value, before
/// the cursor is moved on.
pub proof fn law_sweep_writes_record(
    config: ConfigView,
    answers: Seq<EventView>,
    at: int,
    start: Files,
    key: Seq<char>,
    value: Seq<u8>,
)
    requires
        0 <= at,
        at + 3 <= answers.len(),
        after(config, answers.take(at)).0.stage is Sweep,
        after(config, answers.take(at)).1 is ReadFirst || after(config, answers.take(at)).1
            is ReadNext,
        answers[at] == (EventView::Record { key, value }),
        answers[at + 1] is Done,
        answers[at + 2] is Done,
    ensures
        after(config, answers.take(at + 1)).1 == (ActionView::CreateFile { path: key }),
        after(config, answers.take(at + 2)).1 == (ActionView::WriteFile { bytes: value }),
        after(config, answers.take(at + 3)).1 is ReadNext,
        files_along(config, answers.take(at + 3), start).files.contains_key(key),
        files_along(config, answers.take(at + 3), start).files[key] == value,
{
    let zero = answers.take(at);
    let one = answers.take(at + 1);
    let two = answers.take(at + 2);
    let three = answers.take(at + 3);
    lemma_after_awaited(config, zero);
    assert(one.drop_last() =~= zero && one.last() == answers[at]);
    assert(two.drop_last() =~= one && two.last() == answers[at + 1]);
    assert(three.drop_last() =~= two && three.last() == answers[at + 2]);
    assert(after(config, one).0.stage == StageView::Sweep(SweepStageView::Create { bytes: value }));
    assert(after(config, two).0.stage == StageView::Sweep(SweepStageView::Write));
    assert(files_along(config, two, start).created == Some(key));
}

/// How many commits the session has asked for so far, the action asked for
/// last included.
pub open spec fn commits_asked(config: ConfigView, answers: Seq<EventView>) -> nat
    decreases answers.len(),
{
    let earlier: nat = if answers.len() > 0 {
        commits_asked(config, answers.drop_last())
    } else {
        0
    };
    if after(config, answers).1 is Commit {
        earlier + 1
    } else {
        earlier
    }
}

/// The number of commits asked for at each stage of a session.
spec fn commits_at(session: SessionView) -> nat {
    match session.stage {
        StageView::Insert(InsertStageView::Commit) => 1,
        StageView::Finished(Ok(_)) => if session.config.insert is Some {
            1
        } else {
            0
        },
        StageView::Finished(Err(PresentableError::TransactionCommitFailed)) => if session.config.insert is Some {
            1
        } else {
            0
        },
        _ => 0,
    }
}

proof fn lemma_commits_follow_stage(config: ConfigView, answers: Seq<EventView>)
    ensures
        commits_asked(config, answers) == commits_at(after(config, answers).0),
    decreases answers.len(),
{
    lemma_after_awaited(config, answers);
    if answers.len() > 0 {
        lemma_commits_follow_stage(config, answers.drop_last());
        lemma_after_awaited(config, answers.drop_last());
    }
}

/// A session commits at most once. One that stores a file and ends well has
/// committed exactly once; one that stores none never commits; one that ends
/// in a failure other than that of the commit itself has not asked for any.
pub proof fn law_commit_once(config: ConfigView, answers: Seq<EventView>)
    ensures
        commits_asked(config, answers) <= 1,
        config.insert is None ==> commits_asked(config, answers) == 0,
        after(config, answers).0.stage == StageView::Finished(Ok(())) && config.insert is Some
            ==> commits_asked(config, answers) == 1,
        after(config, answers).0.stage matches StageView::Finished(Err(error)) && error
            != PresentableError::TransactionCommitFailed ==> commits_asked(config, answers) == 0,
{
    lemma_after_awaited(config, answers);
    lemma_commits_follow_stage(config, answers);
}

/// The key of a record that the cursor reported.
pub open spec fn record_key(answer: EventView) -> Seq<char> {
    match answer {
        EventView::Record { key, .. } => key,
        _ => Seq::empty(),
    }
}

/// The value of a record that the cursor reported.
pub open spec fn record_value(answer: EventView) -> Seq<u8> {
    match answer {
        EventView::Record { value, .. } => value,
        _ => Seq::empty(),
    }
}

/// Whether, from the answer at `first` on, `count` records were reported and
/// each was written to its file: three answers for each record, the record
/// itself and the two of its file, and no key comes twice.
pub open spec fn swept(answers: Seq<EventView>, first: int, count: int) -> bool {
    &&& 0 <= first
    &&& 0 <= count
    &&& first + 3 * count <= answers.len()
    &&& forall|i: int|
        0 <= i < count ==> {
            &&& (#[trigger] answers[first + 3 * i]) is Record
            &&& answers[first + 3 * i + 1] is Done
            &&& answers[first + 3 * i + 2] is Done
        }
    &&& forall|i: int, j: int|
        0 <= i < j < count ==> record_key(#[trigger] answers[first + 3 * i]) != record_key(
            #[trigger] answers[first + 3 * j],
        )
}

proof fn lemma_sweep_writes_all(
    config: ConfigView,
    answers: Seq<EventView>,
    first: int,
    count: int,
    start: Files,
)
    requires
        after(config, answers.take(first)).0.stage is Sweep,
        after(config, answers.take(first)).1 is ReadFirst,
        swept(answers, first, count),
    ensures
        after(config, answers.take(first + 3 * count)).0.stage == StageView::Sweep(
            SweepStageView::Scan,
        ),
        forall|i: int|
            0 <= i < count ==> {
                let written = files_along(config, answers.take(first + 3 * count), start).files;
                let reported = #[trigger] answers[first + 3 * i];
                written.contains_key(record_key(reported)) && written[record_key(reported)]
                    == record_value(reported)
            },
    decreases count,
{
    if count == 0 {
        lemma_after_awaited(config, answers.take(first));
    } else {
        let at = first + 3 * (count - 1);
        assert(swept(answers, first, count - 1)) by {
            assert forall|i: int| 0 <= i < count - 1 implies {
                &&& (#[trigger] answers[first + 3 * i]) is Record
                &&& answers[first + 3 * i + 1] is Done
                &&& answers[first + 3 * i + 2] is Done
            } by {}
        }
        lemma_sweep_writes_all(config, answers, first, count - 1, start);
        let zero = answers.take(at);
        let one = answers.take(at + 1);
        let two = answers.take(at + 2);
        let three = answers.take(at + 3);
        let reported = answers[first + 3 * (count - 1)];
        assert(reported is Record);
        assert(answers[first + 3 * (count - 1) + 1] is Done);
        assert(answers[first + 3 * (count - 1) + 2] is Done);
        lemma_after_awaited(config, zero);
        assert(one.drop_last() =~= zero && one.last() == answers[at]);
        assert(two.drop_last() =~= one && two.last() == answers[at + 1]);
        assert(three.drop_last() =~= two && three.last() == answers[at + 2]);
        let key = record_key(reported);
        let value = record_value(reported);
        assert(after(config, one).0.stage == StageView::Sweep(
            SweepStageView::Create { bytes: value },
        ));
        assert(after(config, one).1 == ActionView::CreateFile { path: key });
        assert(after(config, two).0.stage == StageView::Sweep(SweepStageView::Write));
        assert(after(config, two).1 == ActionView::WriteFile { bytes: value });
        let before = files_along(config, zero, start).files;
        assert(files_along(config, one, start).files == before);
        assert(files_along(config, two, start).files == before.insert(key, Seq::empty()));
        assert(files_along(config, two, start).created == Some(key));
        let written = files_along(config, three, start).files;
        assert(written == before.insert(key, Seq::empty()).insert(key, value));
        assert(first + 3 * count == at + 3);
        assert forall|i: int| 0 <= i < count implies ({
            let earlier = #[trigger] answers[first + 3 * i];
            written.contains_key(record_key(earlier)) && written[record_key(earlier)]
                == record_value(earlier)
        }) by {
            if i < count - 1 {
                assert(record_key(answers[first + 3 * i]) != record_key(
                    answers[first + 3 * (count - 1)],
                ));
            }
        }
    }
}

/// Extracting every key: once the cursor has reported N records with N
/// different keys, and each was written, there is for every one of them a
/// file named exactly after its key that holds exactly its value.
pub proof fn law_sweep_writes_every_record(
    config: ConfigView,
    answers: Seq<EventView>,
    first: int,
    count: int,
    start: Files,
)
    requires
        after(config, answers.take(first)).0.stage is Sweep,
        after(config, answers.take(first)).1 is ReadFirst,
        swept(answers, first, count),
    ensures
        forall|i: int|
            0 <= i < count ==> {
                let written = files_along(config, answers.take(first + 3 * count), start).files;
                let reported = #[trigger] answers[first + 3 * i];
                written.contains_key(record_key(reported)) && written[record_key(reported)]
                    == record_value(reported)
            },
{
    lemma_sweep_writes_all(config, answers, first, count, start);
}

} // verus!
