//! The order in which a session takes and releases what it holds.
use vstd::prelude::*;
use crate::config::ConfigView;
use crate::conversation::{after, last_exchange, lemma_after_awaited, Exchange};
use crate::protocol::{ActionView, EventView};
use crate::operations::{
    ExtractStageView, InsertStageView, ListStageView, OpenStage, SweepStageView,
};
use crate::session::StageView;

verus! {

/// What the host holds open for the session, outermost first: nothing; the
/// environment; the environment and its database; on top of those a read
/// transaction, a read transaction with a cursor, or a write transaction.
pub enum Scope {
    Closed,
    Environment,
    Database,
    Reading,
    Scanning,
    Writing,
}

/// What is held after one turn that began in `scope`, or `None` where the
/// action was out of place there.
///
/// The environment is opened from nothing and the database inside it. A
/// transaction begins only where none is open. A cursor needs a read
/// transaction, a cursor move needs the cursor, a lookup needs a read
/// transaction, a put and a commit need the write transaction. What could
/// not be taken is not held. A commit ends the write transaction whether it
/// succeeds or not, and the end of the session releases everything.
pub open spec fn scope_step(scope: Scope, turn: Exchange) -> Option<Scope> {
    let done = turn.answer is Done;
    match turn.action {
        ActionView::OpenEnvironment { .. } => if scope is Closed {
            Some(
                if done {
                    Scope::Environment
                } else {
                    Scope::Closed
                },
            )
        } else {
            None
        },
        ActionView::OpenDatabase { .. } => if scope is Environment {
            Some(
                if done {
                    Scope::Database
                } else {
                    Scope::Environment
                },
            )
        } else {
            None
        },
        ActionView::BeginRead => if scope is Database {
            Some(
                if done {
                    Scope::Reading
                } else {
                    Scope::Database
                },
            )
        } else {
            None
        },
        ActionView::OpenCursor => if scope is Reading {
            Some(
                if done {
                    Scope::Scanning
                } else {
                    Scope::Reading
                },
            )
        } else {
            None
        },
        ActionView::ReadFirst | ActionView::ReadNext => if scope is Scanning {
            Some(Scope::Scanning)
        } else {
            None
        },
        ActionView::Get { .. } => if scope is Reading || scope is Scanning {
            Some(scope)
        } else {
            None
        },
        ActionView::EndRead => if scope is Reading || scope is Scanning {
            Some(Scope::Database)
        } else {
            None
        },
        ActionView::BeginWrite => if scope is Database {
            Some(
                if done {
                    Scope::Writing
                } else {
                    Scope::Database
                },
            )
        } else {
            None
        },
        ActionView::Put { .. } => if scope is Writing {
            Some(Scope::Writing)
        } else {
            None
        },
        ActionView::Commit => if scope is Writing {
            Some(Scope::Database)
        } else {
            None
        },
        ActionView::CreateFile { .. } | ActionView::WriteFile { .. } | ActionView::OpenFile {
            ..
        } | ActionView::ReadFile | ActionView::Print { .. } => Some(scope),
        ActionView::Finish { .. } => Some(Scope::Closed),
    }
}

/// Whether `action` may be asked for while `scope` is held.
pub open spec fn in_place(scope: Scope, action: ActionView) -> bool {
    scope_step(scope, Exchange { action, answer: EventView::Done }) is Some
}

/// What is held once the host has given `answers`, or `None` if an action
/// that it answered was out of place.
pub open spec fn scope_along(config: ConfigView, answers: Seq<EventView>) -> Option<Scope>
    decreases answers.len(),
{
    if answers.len() == 0 {
        Some(Scope::Closed)
    } else {
        match scope_along(config, answers.drop_last()) {
            Some(scope) => scope_step(scope, last_exchange(config, answers)),
            None => None,
        }
    }
}

/// What is held while a session waits at `stage`.
pub open spec fn held(stage: StageView) -> Scope {
    match stage {
        StageView::Open(OpenStage::Database) => Scope::Environment,
        StageView::Open(_) => Scope::Closed,
        StageView::List(ListStageView::Pending) => Scope::Database,
        StageView::List(ListStageView::Transaction) => Scope::Database,
        StageView::List(ListStageView::Cursor) => Scope::Reading,
        StageView::List(_) => Scope::Scanning,
        StageView::Extract(ExtractStageView::Pending) => Scope::Database,
        StageView::Extract(ExtractStageView::Transaction) => Scope::Database,
        StageView::Extract(_) => Scope::Reading,
        StageView::Sweep(SweepStageView::Pending) => Scope::Database,
        StageView::Sweep(SweepStageView::Transaction) => Scope::Database,
        StageView::Sweep(SweepStageView::Cursor) => Scope::Reading,
        StageView::Sweep(_) => Scope::Scanning,
        StageView::Insert(InsertStageView::Put) => Scope::Writing,
        StageView::Insert(InsertStageView::Commit) => Scope::Writing,
        StageView::Insert(_) => Scope::Database,
        StageView::Finished(_) => Scope::Closed,
    }
}

/// Until it has ended, a session holds exactly what its stage says.
pub proof fn lemma_scope_follows_stage(config: ConfigView, answers: Seq<EventView>)
    ensures
        scope_along(config, answers) is Some,
        !(after(config, answers).0.stage is Finished) ==> scope_along(config, answers) == Some(
            held(after(config, answers).0.stage),
        ),
    decreases answers.len(),
{
    lemma_after_awaited(config, answers);
    if answers.len() > 0 {
        lemma_scope_follows_stage(config, answers.drop_last());
        lemma_after_awaited(config, answers.drop_last());
    }
}

/// Every action is asked for in its place, whatever the host answers.
///
/// No engine call is made before the environment and the database are open;
/// a transaction begins only when none is open; cursors and lookups stay
/// inside a read transaction, puts and the commit inside a write
/// transaction.
pub proof fn law_scoping(config: ConfigView, answers: Seq<EventView>)
    ensures
        scope_along(config, answers) matches Some(scope) && in_place(
            scope,
            after(config, answers).1,
        ),
{
    lemma_scope_follows_stage(config, answers);
    lemma_after_awaited(config, answers);
}

/// When the session ends, whatever was held is released: nothing is held
/// after the host has answered the last action.
pub proof fn law_end_releases(config: ConfigView, answers: Seq<EventView>)
    requires
        answers.len() > 0,
        after(config, answers.drop_last()).1 is Finish,
    ensures
        scope_along(config, answers) == Some(Scope::Closed),
{
    lemma_scope_follows_stage(config, answers.drop_last());
}

} // verus!
