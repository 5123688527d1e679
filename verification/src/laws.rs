//! What serving the events does to the database, proved over the meaning of
//! the statements in [`crate::model`], where each statement is run as the text
//! and values that [`crate::dialect::decode`] reads.
use vstd::prelude::*;
use crate::broadcast::BroadcastView;
use crate::database::{current_version, legacy_version};
use crate::model::{
    answers, code_row, cookie_row, drive, drive_startup, faithful, lists_exactly,
    message_id_taken, newest, open_store, serve, user_row, CodeEntry, CookieEntry, End, Outcome,
    Store, wf,
};
use crate::session::{first_action, ActionView};
use crate::session::AnswerView;
use crate::session::{DatabaseEvent, ReplyView};
use crate::statement::StatementView;
use crate::types::{opt_view, AccessLevel, CodeRowView, CookieView, HistoryRowView, User};

verus! {

broadcast use crate::dialect::law_statement_text_decodes;

/// Approving a user stores exactly the approved level for them, touches
/// nothing else, publishes nothing and answers with the empty reply.
pub proof fn law_approve_stores_level(
    s: Store,
    user: i64,
    level: AccessLevel,
    now: u64,
    oracle: spec_fn(Store, StatementView) -> AnswerView,
)
    requires
        s.tables,
        wf(s),
        faithful(oracle),
    ensures
        serve(s, DatabaseEvent::UserApprove { user, level }, now, oracle) == (Outcome {
            store: Store { users: s.users.insert(user, level.code()), ..s },
            end: End::Replied(ReplyView::Unit),
            published: Seq::empty(),
        }),
{
    reveal_with_fuel(drive, 4);
    let q = StatementView::UserById { user };
    assert(answers(s, q, oracle(s, q)));
    if s.users.contains_key(user) && s.users[user] == level.code() {
        assert(s.users.insert(user, level.code()) =~= s.users);
    }
    assert(Store { users: s.users.insert(user, level.code()), ..s } =~= Store {
        users: s.users.insert(user, level.code()),
        ..s
    });
}

/// Revoking a user stores the level of no access for them, touches nothing
/// else, publishes nothing and answers with the empty reply.
pub proof fn law_revoke_removes_access(
    s: Store,
    user: i64,
    now: u64,
    oracle: spec_fn(Store, StatementView) -> AnswerView,
)
    requires
        s.tables,
        wf(s),
        faithful(oracle),
    ensures
        serve(s, DatabaseEvent::UserRevoke { user }, now, oracle) == (Outcome {
            store: Store { users: s.users.insert(user, AccessLevel::NoAccess.code()), ..s },
            end: End::Replied(ReplyView::Unit),
            published: Seq::empty(),
        }),
{
    reveal_with_fuel(drive, 4);
    let q = StatementView::UserById { user };
    assert(answers(s, q, oracle(s, q)));
    if s.users.contains_key(user) && s.users[user] == 0 {
        assert(s.users.insert(user, 0) =~= s.users);
    }
}

/// Querying a user answers with their stored row and changes nothing.
pub proof fn law_query_user_reads_row(
    s: Store,
    user: i64,
    now: u64,
    oracle: spec_fn(Store, StatementView) -> AnswerView,
)
    requires
        s.tables,
        wf(s),
        faithful(oracle),
    ensures
        serve(s, DatabaseEvent::UserQuery { user }, now, oracle) == (Outcome {
            store: s,
            end: End::Replied(ReplyView::User(user_row(s, user))),
            published: Seq::empty(),
        }),
{
    reveal_with_fuel(drive, 2);
    let q = StatementView::UserById { user };
    assert(answers(s, q, oracle(s, q)));
}

/// A user queried after an approval has the approved level.
pub proof fn law_approved_level_read_back(
    s: Store,
    user: i64,
    level: AccessLevel,
    now: u64,
    oracle: spec_fn(Store, StatementView) -> AnswerView,
)
    requires
        s.tables,
        wf(s),
        faithful(oracle),
    ensures
        serve(
            serve(s, DatabaseEvent::UserApprove { user, level }, now, oracle).store,
            DatabaseEvent::UserQuery { user },
            now,
            oracle,
        ).end == End::Replied(ReplyView::User(Some(User { id: user, authorized: level.code() }))),
{
    law_approve_stores_level(s, user, level, now, oracle);
    let s1 = serve(s, DatabaseEvent::UserApprove { user, level }, now, oracle).store;
    law_query_user_reads_row(s1, user, now, oracle);
}

/// Adding a user stores them with no access when they were unknown, keeps a
/// known user as they are, and answers whether the user was new.
pub proof fn law_user_add(
    s: Store,
    user: i64,
    now: u64,
    oracle: spec_fn(Store, StatementView) -> AnswerView,
)
    requires
        s.tables,
        wf(s),
        faithful(oracle),
    ensures
        serve(s, DatabaseEvent::UserAdd { user }, now, oracle) == (Outcome {
            store: if s.users.contains_key(user) {
                s
            } else {
                Store { users: s.users.insert(user, AccessLevel::NoAccess.code()), ..s }
            },
            end: End::Replied(ReplyView::Flag(!s.users.contains_key(user))),
            published: Seq::empty(),
        }),
{
    reveal_with_fuel(drive, 4);
    let q = StatementView::UserById { user };
    assert(answers(s, q, oracle(s, q)));
}

/// Whether storing a session for account `id` on behalf of `user` is accepted:
/// the account is new, or already belongs to `user`.
pub open spec fn cookie_accepted(s: Store, user: i64, id: Seq<char>) -> bool {
    !s.cookies.contains_key(id) || s.cookies[id].belong == user
}

/// The store after an accepted session was stored: the tokens of a known
/// account are replaced and everything else about it kept; a new account is
/// stored for `user`, enabled, never logged in.
pub open spec fn cookie_stored(s: Store, user: i64, id: Seq<char>, csrf: Seq<char>, session: Seq<char>) -> Store {
    if s.cookies.contains_key(id) {
        Store { cookies: s.cookies.insert(id, CookieEntry { csrf, session, ..s.cookies[id] }), ..s }
    } else {
        Store {
            cookies: s.cookies.insert(
                id,
                CookieEntry { csrf, session, last_login: 0, belong: user, enabled: true },
            ),
            ..s
        }
    }
}

/// Storing a session answers whether it was accepted; an accepted one is
/// stored, a refused one (an account of another user) leaves the database as
/// it was.
pub proof fn law_cookie_set(
    s: Store,
    user: i64,
    id: String,
    csrf: String,
    session: String,
    now: u64,
    oracle: spec_fn(Store, StatementView) -> AnswerView,
)
    requires
        s.tables,
        wf(s),
        faithful(oracle),
    ensures
        serve(s, DatabaseEvent::CookieSet { user, id, csrf, session }, now, oracle) == (Outcome {
            store: if cookie_accepted(s, user, id@) {
                cookie_stored(s, user, id@, csrf@, session@)
            } else {
                s
            },
            end: End::Replied(ReplyView::Flag(cookie_accepted(s, user, id@))),
            published: Seq::empty(),
        }),
{
    reveal_with_fuel(drive, 4);
    let q = StatementView::CookieById { id: id@ };
    assert(answers(s, q, oracle(s, q)));
}

/// Storing a session never hands a stored account to another user.
pub proof fn law_cookie_set_keeps_owner(
    s: Store,
    user: i64,
    id: String,
    csrf: String,
    session: String,
    now: u64,
    oracle: spec_fn(Store, StatementView) -> AnswerView,
    other: Seq<char>,
)
    requires
        s.tables,
        wf(s),
        faithful(oracle),
        s.cookies.contains_key(other),
    ensures
        ({
            let after = serve(s, DatabaseEvent::CookieSet { user, id, csrf, session }, now, oracle).store;
            after.cookies.contains_key(other) && after.cookies[other].belong == s.cookies[other].belong
        }),
{
    law_cookie_set(s, user, id, csrf, session, now, oracle);
}

/// Recording a client version stores it and answers with the empty reply.
pub proof fn law_v_update(
    s: Store,
    v: String,
    now: u64,
    oracle: spec_fn(Store, StatementView) -> AnswerView,
)
    requires
        s.tables,
        wf(s),
        faithful(oracle),
    ensures
        serve(s, DatabaseEvent::VUpdate { v }, now, oracle) == (Outcome {
            store: Store { intel_v: Some(v@), ..s },
            end: End::Replied(ReplyView::Unit),
            published: Seq::empty(),
        }),
{
    reveal_with_fuel(drive, 4);
    let q = StatementView::IntelVersion;
    assert(answers(s, q, oracle(s, q)));
}

/// Querying the client version answers with the stored one.
pub proof fn law_v_query(s: Store, now: u64, oracle: spec_fn(Store, StatementView) -> AnswerView)
    requires
        s.tables,
        wf(s),
        faithful(oracle),
    ensures
        serve(s, DatabaseEvent::VQuery, now, oracle) == (Outcome {
            store: s,
            end: End::Replied(ReplyView::Stats(s.intel_v)),
            published: Seq::empty(),
        }),
{
    reveal_with_fuel(drive, 2);
    let q = StatementView::IntelVersion;
    assert(answers(s, q, oracle(s, q)));
}

/// The client version queried after a recording is the recorded one.
pub proof fn law_v_update_read_back(
    s: Store,
    v: String,
    now: u64,
    oracle: spec_fn(Store, StatementView) -> AnswerView,
)
    requires
        s.tables,
        wf(s),
        faithful(oracle),
    ensures
        serve(serve(s, DatabaseEvent::VUpdate { v }, now, oracle).store, DatabaseEvent::VQuery, now, oracle).end
            == End::Replied(ReplyView::Stats(Some(v@))),
{
    law_v_update(s, v, now, oracle);
    law_v_query(serve(s, DatabaseEvent::VUpdate { v }, now, oracle).store, now, oracle);
}

/// Adding a passcode that is new, under a message id that is free, stores it
/// as not fully redeemed, announces it to the subscribers and answers with the
/// empty reply; otherwise the database refuses it, and serving stops with
/// nothing stored and nothing announced.
pub proof fn law_code_add(
    s: Store,
    code: String,
    message_id: i32,
    now: u64,
    oracle: spec_fn(Store, StatementView) -> AnswerView,
)
    requires
        s.tables,
        wf(s),
        faithful(oracle),
    ensures
        serve(s, DatabaseEvent::CodeAdd { code, message_id }, now, oracle) == (if !s.codes.contains_key(
            code@,
        ) && !message_id_taken(s, message_id) {
            Outcome {
                store: Store { codes: s.codes.insert(code@, CodeEntry { message_id, fr: false }), ..s },
                end: End::Replied(ReplyView::Unit),
                published: seq![BroadcastView::NewCode(code@)],
            }
        } else {
            Outcome { store: s, end: End::Aborted, published: Seq::empty() }
        }),
{
    reveal_with_fuel(drive, 4);
}

/// Querying a passcode answers with its stored row and changes nothing.
pub proof fn law_code_query(
    s: Store,
    code: String,
    now: u64,
    oracle: spec_fn(Store, StatementView) -> AnswerView,
)
    requires
        s.tables,
        wf(s),
        faithful(oracle),
    ensures
        serve(s, DatabaseEvent::CodeQuery { code }, now, oracle) == (Outcome {
            store: s,
            end: End::Replied(ReplyView::Code(code_row(s, code@))),
            published: Seq::empty(),
        }),
{
    reveal_with_fuel(drive, 2);
    let q = StatementView::CodeByCode { code: code@ };
    assert(answers(s, q, oracle(s, q)));
}

/// A passcode queried after it was added is found, with its message id and
/// not fully redeemed.
pub proof fn law_code_add_read_back(
    s: Store,
    code: String,
    message_id: i32,
    now: u64,
    oracle: spec_fn(Store, StatementView) -> AnswerView,
)
    requires
        s.tables,
        wf(s),
        faithful(oracle),
        !s.codes.contains_key(code@),
        !message_id_taken(s, message_id),
    ensures
        serve(
            serve(s, DatabaseEvent::CodeAdd { code, message_id }, now, oracle).store,
            DatabaseEvent::CodeQuery { code },
            now,
            oracle,
        ).end == End::Replied(ReplyView::Code(Some(CodeRowView { code: code@, message_id, fr: false }))),
{
    law_code_add(s, code, message_id, now, oracle);
    law_code_query(serve(s, DatabaseEvent::CodeAdd { code, message_id }, now, oracle).store, code, now, oracle);
}

/// Marking a passcode as fully redeemed does so when it is stored, and answers
/// with its row as it then is.
pub proof fn law_code_fr(
    s: Store,
    code: String,
    now: u64,
    oracle: spec_fn(Store, StatementView) -> AnswerView,
)
    requires
        s.tables,
        wf(s),
        faithful(oracle),
    ensures
        ({
            let after = if s.codes.contains_key(code@) {
                Store { codes: s.codes.insert(code@, CodeEntry { fr: true, ..s.codes[code@] }), ..s }
            } else {
                s
            };
            serve(s, DatabaseEvent::CodeFR { code }, now, oracle) == (Outcome {
                store: after,
                end: End::Replied(ReplyView::Code(code_row(after, code@))),
                published: Seq::empty(),
            })
        }),
{
    reveal_with_fuel(drive, 4);
    let after = if s.codes.contains_key(code@) {
        Store { codes: s.codes.insert(code@, CodeEntry { fr: true, ..s.codes[code@] }), ..s }
    } else {
        s
    };
    let q = StatementView::CodeByCode { code: code@ };
    assert(answers(after, q, oracle(after, q)));
}

/// Resending a passcode announces it again, changes nothing and answers with
/// the empty reply.
pub proof fn law_code_resent(
    s: Store,
    code: String,
    now: u64,
    oracle: spec_fn(Store, StatementView) -> AnswerView,
)
    ensures
        serve(s, DatabaseEvent::CodeResent { code }, now, oracle) == (Outcome {
            store: s,
            end: End::Replied(ReplyView::Unit),
            published: seq![BroadcastView::NewCode(code@)],
        }),
{
    reveal_with_fuel(drive, 3);
}

/// Enabling or disabling an account stores the choice for a stored account,
/// and answers with the empty reply.
pub proof fn law_cookie_toggle(
    s: Store,
    id: String,
    usable: bool,
    now: u64,
    oracle: spec_fn(Store, StatementView) -> AnswerView,
)
    requires
        s.tables,
    ensures
        serve(s, DatabaseEvent::CookieToggle { id, usable }, now, oracle) == (Outcome {
            store: if s.cookies.contains_key(id@) {
                Store { cookies: s.cookies.insert(id@, CookieEntry { enabled: usable, ..s.cookies[id@] }), ..s }
            } else {
                s
            },
            end: End::Replied(ReplyView::Unit),
            published: Seq::empty(),
        }),
{
    reveal_with_fuel(drive, 3);
}

/// Recording a login stores its time, `now` as a signed number of seconds,
/// for a stored account, and answers with the empty reply.
pub proof fn law_cookie_update_timestamp(
    s: Store,
    id: String,
    now: u64,
    oracle: spec_fn(Store, StatementView) -> AnswerView,
)
    requires
        s.tables,
    ensures
        serve(s, DatabaseEvent::CookieUpdateTimestamp(id), now, oracle) == (Outcome {
            store: if s.cookies.contains_key(id@) {
                Store {
                    cookies: s.cookies.insert(id@, CookieEntry { last_login: now as i64, ..s.cookies[id@] }),
                    ..s
                }
            } else {
                s
            },
            end: End::Replied(ReplyView::Unit),
            published: Seq::empty(),
        }),
{
    reveal_with_fuel(drive, 3);
}

/// The accounts stored for `owner`.
pub open spec fn owned_accounts(s: Store, owner: i64) -> Set<Seq<char>> {
    s.cookies.dom().filter(|k: Seq<char>| s.cookies[k].belong == owner)
}

/// The number of rows in `rows` is the number of accounts stored for `owner`
/// when `rows` lists exactly those accounts.
proof fn lemma_listed_count(s: Store, rows: Seq<CookieView>, owner: i64)
    requires
        lists_exactly(s, rows, |c: CookieView| c.belong == owner),
    ensures
        rows.len() == owned_accounts(s, owner).len(),
{
    let keep = |c: CookieView| c.belong == owner;
    let ids = rows.map_values(|c: CookieView| c.id);
    assert(ids.no_duplicates()) by {
        assert forall|i: int, j: int| 0 <= i < ids.len() && 0 <= j < ids.len() && i != j implies ids[i]
            != ids[j] by {
            if i < j {
                assert(rows[i].id != rows[j].id);
            } else {
                assert(rows[j].id != rows[i].id);
            }
        }
    }
    assert forall|k: Seq<char>| ids.to_set().contains(k) implies #[trigger] owned_accounts(
        s,
        owner,
    ).contains(k) by {
        let i = choose|i: int| 0 <= i < ids.len() && ids[i] == k;
        assert(cookie_row(s, rows[i].id) == Some(rows[i]) && keep(rows[i]));
    }
    assert forall|k: Seq<char>| #[trigger] owned_accounts(s, owner).contains(k) implies ids.to_set().contains(
        k,
    ) by {
        assert(s.cookies.contains_key(k));
        assert(keep(cookie_row(s, k).unwrap()));
        let i = choose|i: int| 0 <= i < rows.len() && rows[i].id == k;
        assert(ids[i] == k);
    }
    assert(ids.to_set() =~= owned_accounts(s, owner));
    ids.unique_seq_to_set();
}

/// Checking the capacity for account `codename` of `owner` answers yes when
/// the account is already stored, and otherwise whether `owner` holds at most
/// `capacity` accounts; it changes nothing.
pub proof fn law_cookie_check_capacity(
    s: Store,
    codename: String,
    owner: i64,
    capacity: usize,
    now: u64,
    oracle: spec_fn(Store, StatementView) -> AnswerView,
)
    requires
        s.tables,
        wf(s),
        faithful(oracle),
    ensures
        serve(s, DatabaseEvent::CookieCheckCapacity(codename, owner, capacity), now, oracle) == (Outcome {
            store: s,
            end: End::Replied(
                ReplyView::Flag(
                    s.cookies.contains_key(codename@) || owned_accounts(s, owner).len() <= capacity,
                ),
            ),
            published: Seq::empty(),
        }),
{
    reveal_with_fuel(drive, 4);
    let q1 = StatementView::CookieById { id: codename@ };
    assert(answers(s, q1, oracle(s, q1)));
    if !s.cookies.contains_key(codename@) {
        let q2 = StatementView::CookiesOf { belong: owner };
        let a = oracle(s, q2);
        assert(answers(s, q2, a));
        let rows = a->Cookies_0;
        lemma_listed_count(s, rows, owner);
    }
}

/// Recording a redemption attempt appends it, with the time `now`, to the end
/// of the history, replies to nobody and publishes nothing.
pub proof fn law_log_insert(
    s: Store,
    id: String,
    code: String,
    error: Option<String>,
    now: u64,
    oracle: spec_fn(Store, StatementView) -> AnswerView,
)
    requires
        s.tables,
        s.history is Some,
    ensures
        serve(s, DatabaseEvent::LogInsert { id, code, error }, now, oracle) == (Outcome {
            store: Store {
                history: Some(
                    s.history.unwrap().push(
                        HistoryRowView { timestamp: now as i64, id: id@, code: code@, error: opt_view(error) },
                    ),
                ),
                ..s
            },
            end: End::Finished,
            published: Seq::empty(),
        }),
{
    reveal_with_fuel(drive, 3);
}

/// The attempts a history query answers with: the last forty when `id` is
/// empty, else the last twenty made with account `id`; newest first.
pub open spec fn history_answer(h: Seq<HistoryRowView>, id: Seq<char>) -> Seq<HistoryRowView> {
    if id.len() == 0 {
        newest(h, 40)
    } else {
        newest(h.filter(|e: HistoryRowView| e.id == id), 20)
    }
}

/// Querying the history answers with [`history_answer`] and changes nothing.
pub proof fn law_log_query(
    s: Store,
    id: String,
    now: u64,
    oracle: spec_fn(Store, StatementView) -> AnswerView,
)
    requires
        s.tables,
        s.history is Some,
        wf(s),
        faithful(oracle),
    ensures
        serve(s, DatabaseEvent::LogQuery { id }, now, oracle) == (Outcome {
            store: s,
            end: End::Replied(ReplyView::History(history_answer(s.history.unwrap(), id@))),
            published: Seq::empty(),
        }),
{
    reveal_with_fuel(drive, 2);
    let q = if id@.len() == 0 {
        StatementView::AllHistory
    } else {
        StatementView::HistoryOf { id: id@ }
    };
    assert(answers(s, q, oracle(s, q)));
}

/// The history of an account queried right after an attempt with it was
/// recorded begins with that attempt.
pub proof fn law_log_read_back(
    s: Store,
    id: String,
    code: String,
    error: Option<String>,
    now: u64,
    oracle: spec_fn(Store, StatementView) -> AnswerView,
)
    requires
        s.tables,
        s.history is Some,
        wf(s),
        faithful(oracle),
    ensures
        ({
            let after = serve(s, DatabaseEvent::LogInsert { id, code, error }, now, oracle).store;
            let entry = HistoryRowView {
                timestamp: now as i64,
                id: id@,
                code: code@,
                error: opt_view(error),
            };
            serve(after, DatabaseEvent::LogQuery { id }, now, oracle).end matches End::Replied(
                ReplyView::History(rows),
            ) && rows.len() > 0 && rows[0] == entry
        }),
{
    law_log_insert(s, id, code, error, now, oracle);
    let after = serve(s, DatabaseEvent::LogInsert { id, code, error }, now, oracle).store;
    law_log_query(after, id, now, oracle);
    let h = s.history.unwrap();
    let entry = HistoryRowView { timestamp: now as i64, id: id@, code: code@, error: opt_view(error) };
    let h2 = h.push(entry);
    assert(h2.drop_last() =~= h);
    if id@.len() != 0 {
        let pred = |e: HistoryRowView| e.id == id@;
        reveal_with_fuel(Seq::<_>::filter, 1);
        let f = h2.filter(pred);
        assert(f == h.filter(pred).push(entry));
        assert(f.reverse()[0] == entry);
    } else {
        assert(h2.reverse()[0] == entry);
    }
}

/// Whether serving `event` only reads.
pub open spec fn is_query(event: DatabaseEvent) -> bool {
    ||| event is UserQuery
    ||| event is CodeQuery
    ||| event is CookieQueryAll
    ||| event is CookieQuery
    ||| event is CookieQueryID
    ||| event is LogQuery
    ||| event is VQuery
}

/// The queries change nothing, publish nothing and always reply.
pub proof fn law_queries_change_nothing(
    s: Store,
    event: DatabaseEvent,
    now: u64,
    oracle: spec_fn(Store, StatementView) -> AnswerView,
)
    requires
        s.tables,
        s.history is Some,
        wf(s),
        faithful(oracle),
        is_query(event),
    ensures
        serve(s, event, now, oracle).store == s,
        serve(s, event, now, oracle).published == Seq::<BroadcastView>::empty(),
        serve(s, event, now, oracle).end is Replied,
{
    reveal_with_fuel(drive, 2);
    match first_action(event, now) {
        ActionView::Run(q) => {
            assert(q.is_read());
            assert(answers(s, q, oracle(s, q)));
        },
        _ => {},
    }
}

/// The store that creating the schema leaves: empty tables and the current version.
pub open spec fn fresh_schema() -> Store {
    Store {
        tables: true,
        version: Some(current_version()),
        intel_v: None,
        codes: Map::empty(),
        users: Map::empty(),
        cookies: Map::empty(),
        history: Some(Seq::empty()),
        staging: None,
    }
}

/// Opening a database file without tables creates the schema, records the
/// current version, and reports that nothing was migrated.
pub proof fn law_open_blank(s: Store, oracle: spec_fn(Store, StatementView) -> AnswerView)
    requires
        wf(s),
        !s.tables,
        faithful(oracle),
    ensures
        open_store(s, oracle) == (Outcome {
            store: fresh_schema(),
            end: End::Replied(ReplyView::Flag(false)),
            published: Seq::empty(),
        }),
{
    reveal_with_fuel(drive_startup, 5);
    assert(answers(s, StatementView::MetaTableExists, oracle(s, StatementView::MetaTableExists)));
    let s2 = fresh_schema();
    assert(wf(s2));
    assert(answers(s2, StatementView::SchemaVersion, oracle(s2, StatementView::SchemaVersion)));
    assert(current_version()[0] != legacy_version()[0]);
}

/// Opening a database of the legacy version migrates it: the current version
/// is recorded, the history is kept entry for entry, and the opening reports
/// that it migrated.
#[verifier::rlimit(40)]
pub proof fn law_open_legacy(s: Store, oracle: spec_fn(Store, StatementView) -> AnswerView)
    requires
        wf(s),
        faithful(oracle),
        s.tables,
        s.version == Some(legacy_version()),
        s.history is Some,
        s.staging is None,
    ensures
        open_store(s, oracle) == (Outcome {
            store: Store { version: Some(current_version()), ..s },
            end: End::Replied(ReplyView::Flag(true)),
            published: Seq::empty(),
        }),
{
    reveal_with_fuel(drive_startup, 9);
    assert(answers(s, StatementView::MetaTableExists, oracle(s, StatementView::MetaTableExists)));
    assert(answers(s, StatementView::SchemaVersion, oracle(s, StatementView::SchemaVersion)));
    let h = s.history.unwrap();
    assert(Seq::<HistoryRowView>::empty() + h =~= h);
}

/// Opening a database with tables of any version but the legacy one changes
/// nothing and reports that nothing was migrated.
pub proof fn law_open_current(s: Store, oracle: spec_fn(Store, StatementView) -> AnswerView)
    requires
        wf(s),
        faithful(oracle),
        s.tables,
        s.version != Some(legacy_version()),
    ensures
        open_store(s, oracle) == (Outcome {
            store: s,
            end: End::Replied(ReplyView::Flag(false)),
            published: Seq::empty(),
        }),
{
    reveal_with_fuel(drive_startup, 3);
    assert(answers(s, StatementView::MetaTableExists, oracle(s, StatementView::MetaTableExists)));
    assert(answers(s, StatementView::SchemaVersion, oracle(s, StatementView::SchemaVersion)));
}

/// Opening a database of the legacy version whose history cannot be moved
/// (the history table is missing, or a copy of it is left over) fails.
proof fn lemma_open_legacy_refused(s: Store, oracle: spec_fn(Store, StatementView) -> AnswerView)
    requires
        wf(s),
        faithful(oracle),
        s.tables,
        s.version == Some(legacy_version()),
        s.history is None || s.staging is Some,
    ensures
        open_store(s, oracle).end is Aborted,
{
    reveal_with_fuel(drive_startup, 6);
    assert(answers(s, StatementView::MetaTableExists, oracle(s, StatementView::MetaTableExists)));
    assert(answers(s, StatementView::SchemaVersion, oracle(s, StatementView::SchemaVersion)));
}

/// Once opening a database went through, opening it again changes nothing
/// and migrates nothing.
pub proof fn law_open_twice(s: Store, oracle: spec_fn(Store, StatementView) -> AnswerView)
    requires
        wf(s),
        faithful(oracle),
        open_store(s, oracle).end is Replied,
    ensures
        ({
            let once = open_store(s, oracle).store;
            open_store(once, oracle) == (Outcome {
                store: once,
                end: End::Replied(ReplyView::Flag(false)),
                published: Seq::empty(),
            })
        }),
{
    assert(current_version()[0] != legacy_version()[0]);
    if !s.tables {
        law_open_blank(s, oracle);
    } else if s.version == Some(legacy_version()) {
        if s.history is None || s.staging is Some {
            lemma_open_legacy_refused(s, oracle);
        } else {
            law_open_legacy(s, oracle);
        }
    } else {
        law_open_current(s, oracle);
    }
    let once = open_store(s, oracle).store;
    assert(wf(once));
    law_open_current(once, oracle);
}

/// Querying an account answers with its stored row and changes nothing.
pub proof fn law_cookie_query_id(
    s: Store,
    id: String,
    now: u64,
    oracle: spec_fn(Store, StatementView) -> AnswerView,
)
    requires
        s.tables,
        wf(s),
        faithful(oracle),
    ensures
        serve(s, DatabaseEvent::CookieQueryID(id), now, oracle) == (Outcome {
            store: s,
            end: End::Replied(ReplyView::Cookie(cookie_row(s, id@))),
            published: Seq::empty(),
        }),
{
    reveal_with_fuel(drive, 2);
    let q = StatementView::CookieById { id: id@ };
    assert(answers(s, q, oracle(s, q)));
}

/// An account queried after a session was accepted for it holds that session
/// and belongs to the user it was stored for.
pub proof fn law_cookie_set_read_back(
    s: Store,
    user: i64,
    id: String,
    csrf: String,
    session: String,
    now: u64,
    oracle: spec_fn(Store, StatementView) -> AnswerView,
)
    requires
        s.tables,
        wf(s),
        faithful(oracle),
        cookie_accepted(s, user, id@),
    ensures
        ({
            let after = serve(s, DatabaseEvent::CookieSet { user, id, csrf, session }, now, oracle).store;
            serve(after, DatabaseEvent::CookieQueryID(id), now, oracle).end matches End::Replied(
                ReplyView::Cookie(Some(row)),
            ) && row.id == id@ && row.csrf_token == csrf@ && row.session_id == session@ && row.belong
                == user
        }),
{
    law_cookie_set(s, user, id, csrf, session, now, oracle);
    let after = serve(s, DatabaseEvent::CookieSet { user, id, csrf, session }, now, oracle).store;
    law_cookie_query_id(after, id, now, oracle);
}

/// An account queried after it was enabled or disabled has that setting.
pub proof fn law_cookie_toggle_read_back(
    s: Store,
    id: String,
    usable: bool,
    now: u64,
    oracle: spec_fn(Store, StatementView) -> AnswerView,
)
    requires
        s.tables,
        wf(s),
        faithful(oracle),
        s.cookies.contains_key(id@),
    ensures
        ({
            let after = serve(s, DatabaseEvent::CookieToggle { id, usable }, now, oracle).store;
            serve(after, DatabaseEvent::CookieQueryID(id), now, oracle).end matches End::Replied(
                ReplyView::Cookie(Some(row)),
            ) && row.enabled == usable
        }),
{
    law_cookie_toggle(s, id, usable, now, oracle);
    let after = serve(s, DatabaseEvent::CookieToggle { id, usable }, now, oracle).store;
    law_cookie_query_id(after, id, now, oracle);
}

/// Listing the accounts answers with every enabled account, or every account,
/// once each; listing the accounts of a user answers with exactly theirs.
pub proof fn law_cookie_listings(
    s: Store,
    enabled_only: bool,
    owner: i64,
    now: u64,
    oracle: spec_fn(Store, StatementView) -> AnswerView,
)
    requires
        s.tables,
        wf(s),
        faithful(oracle),
    ensures
        serve(s, DatabaseEvent::CookieQueryAll(enabled_only), now, oracle).end matches End::Replied(
            ReplyView::Cookies(rows),
        ) && lists_exactly(s, rows, |c: CookieView| !enabled_only || c.enabled),
        serve(s, DatabaseEvent::CookieQuery(owner), now, oracle).end matches End::Replied(
            ReplyView::Cookies(rows),
        ) && lists_exactly(s, rows, |c: CookieView| c.belong == owner),
{
    reveal_with_fuel(drive, 2);
    let q = if enabled_only {
        StatementView::EnabledCookies
    } else {
        StatementView::AllCookies
    };
    assert(answers(s, q, oracle(s, q)));
    let rows = oracle(s, q)->Cookies_0;
    let keep = |c: CookieView| !enabled_only || c.enabled;
    if enabled_only {
        assert(lists_exactly(s, rows, |c: CookieView| c.enabled));
    } else {
        assert(lists_exactly(s, rows, |c: CookieView| true));
    }
    assert(lists_exactly(s, rows, keep));
    let q2 = StatementView::CookiesOf { belong: owner };
    assert(answers(s, q2, oracle(s, q2)));
}

} // verus!
