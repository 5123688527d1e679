//! Opening the database: creating the schema when it is missing, then
//! migrating a legacy schema to the current one.
use vstd::prelude::*;
use crate::database;
use crate::database::legacy_version;
use crate::session::{abort, respond, Action, ActionView, Answer, AnswerView, Reply, ReplyView, FINISHED};
use crate::statement::{Statement, StatementView};

verus! {

/// How far the opening has gone.
pub struct Startup {
    pub stage: u8,
}

/// The statements of the migration from the legacy schema, in order.
pub open spec fn migration_sequence() -> Seq<StatementView> {
    seq![
        StatementView::CreateHistoryV2,
        StatementView::CopyHistory,
        StatementView::DropHistory,
        StatementView::RenameHistoryV2,
        StatementView::BumpVersion,
    ]
}

/// The statement of the migration that runs once the one before it went through.
pub open spec fn migration_statement(stage: u8) -> StatementView {
    migration_sequence()[stage - 3]
}

/// The `k`-th statement of the migration.
fn migration_step(k: usize) -> (r: Statement)
    requires
        k < 5,
    ensures
        r@ == migration_sequence()[k as int],
{
    let mut steps = database::migration_v1();
    proof {
        let m = steps@.map_values(|s: Statement| s@);
        assert(m.len() == 5);
        assert(m[k as int] == steps@[k as int]@);
    }
    steps.remove(k)
}

/// The next stage and action of opening, once the last action returned `a`.
/// The reply to the whole opening is whether it migrated the schema.
pub open spec fn startup_step(stage: u8, a: AnswerView) -> (u8, ActionView) {
    if stage == FINISHED {
        (FINISHED, ActionView::Finish)
    } else if a is Failed {
        abort()
    } else if stage == 0 {
        match a {
            AnswerView::Flag(true) => (3, ActionView::Run(StatementView::SchemaVersion)),
            AnswerView::Flag(false) => (1, ActionView::Run(StatementView::CreateSchema)),
            _ => abort(),
        }
    } else if stage == 1 {
        match a {
            AnswerView::Done => (2, ActionView::Run(StatementView::InsertVersion)),
            _ => abort(),
        }
    } else if stage == 2 {
        match a {
            AnswerView::Done => (3, ActionView::Run(StatementView::SchemaVersion)),
            _ => abort(),
        }
    } else if stage == 3 {
        match a {
            AnswerView::Version(v) => if v == Some(legacy_version()) {
                (4, ActionView::Run(migration_sequence()[0]))
            } else {
                respond(ReplyView::Flag(false))
            },
            _ => abort(),
        }
    } else if 4 <= stage <= 7 {
        match a {
            AnswerView::Done => ((stage + 1) as u8, ActionView::Run(migration_statement(stage))),
            _ => abort(),
        }
    } else {
        match a {
            AnswerView::Done => respond(ReplyView::Flag(true)),
            _ => abort(),
        }
    }
}

impl Startup {
    pub open spec fn next(self, a: AnswerView) -> (Startup, ActionView) {
        let (stage, action) = startup_step(self.stage, a);
        (Startup { stage }, action)
    }

    /// Begins by asking whether the schema exists.
    pub fn start() -> (r: (Startup, Action))
        ensures
            r.0.stage == 0,
            r.1@ == ActionView::Run(StatementView::MetaTableExists),
    {
        (Startup { stage: 0 }, Action::Run(database::check_database_table()))
    }

    /// Continues once the last action returned `answer`.
    pub fn advance(self, answer: Answer) -> (r: (Startup, Action))
        ensures
            r.0 == self.next(answer@).0,
            r.1@ == self.next(answer@).1,
    {
        let stage = self.stage;
        if stage == FINISHED {
            return (Startup { stage: FINISHED }, Action::Finish);
        }
        if let Answer::Failed = answer {
            return (Startup { stage: FINISHED }, Action::Abort);
        }
        if stage == 0 {
            match answer {
                Answer::Flag(true) => (Startup { stage: 3 }, Action::Run(database::check_database_version())),
                Answer::Flag(false) => (Startup { stage: 1 }, Action::Run(database::create_db())),
                _ => (Startup { stage: FINISHED }, Action::Abort),
            }
        } else if stage == 1 {
            match answer {
                Answer::Done => (Startup { stage: 2 }, Action::Run(database::insert_database_version())),
                _ => (Startup { stage: FINISHED }, Action::Abort),
            }
        } else if stage == 2 {
            match answer {
                Answer::Done => (Startup { stage: 3 }, Action::Run(database::check_database_version())),
                _ => (Startup { stage: FINISHED }, Action::Abort),
            }
        } else if stage == 3 {
            match answer {
                Answer::Version(v) => {
                    if database::migration(&v) {
                        (Startup { stage: 4 }, Action::Run(migration_step(0)))
                    } else {
                        (Startup { stage: FINISHED }, Action::Respond(Reply::Flag(false)))
                    }
                },
                _ => (Startup { stage: FINISHED }, Action::Abort),
            }
        } else if stage <= 7 {
            match answer {
                Answer::Done => {
                    (Startup { stage: stage + 1 }, Action::Run(migration_step((stage - 3) as usize)))
                },
                _ => (Startup { stage: FINISHED }, Action::Abort),
            }
        } else {
            match answer {
                Answer::Done => (Startup { stage: FINISHED }, Action::Respond(Reply::Flag(true))),
                _ => (Startup { stage: FINISHED }, Action::Abort),
            }
        }
    }
}

} // verus!
