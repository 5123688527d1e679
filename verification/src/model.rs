//! What the tables hold, and what each statement does to them or returns from
//! them: the meaning that the laws of the library are stated over.
use vstd::prelude::*;
use crate::broadcast::BroadcastView;
use crate::database::current_version;
use crate::dialect::decode;
use crate::session::{ActionView, AnswerView, DatabaseEvent, ReplyView, Session, first_action};
use crate::startup::Startup;
use crate::statement::StatementView;
use crate::types::{CodeRowView, CookieView, HistoryRowView, User};

verus! {

/// A row of `codes` without its key.
pub struct CodeEntry {
    pub message_id: i32,
    pub fr: bool,
}

/// A row of `cookies` without its key.
pub struct CookieEntry {
    pub csrf: Seq<char>,
    pub session: Seq<char>,
    pub last_login: i64,
    pub belong: i64,
    pub enabled: bool,
}

/// The contents of the database file.
#[verifier::ext_equal]
pub struct Store {
    /// Whether the schema was created.
    pub tables: bool,
    /// The `version` row of `meta`.
    pub version: Option<Seq<char>>,
    /// The client version recorded in the `intel_v` row of `meta`.
    pub intel_v: Option<Seq<char>>,
    pub codes: Map<Seq<char>, CodeEntry>,
    pub users: Map<i64, i32>,
    pub cookies: Map<Seq<char>, CookieEntry>,
    /// The rows of `history` in the order of their entry ids, or `None` while
    /// the table is dropped during the migration.
    pub history: Option<Seq<HistoryRowView>>,
    /// The rows of `history_v2`, while the migration has it.
    pub staging: Option<Seq<HistoryRowView>>,
}

/// A store that a database file can hold: finitely many rows in each table.
pub open spec fn wf(s: Store) -> bool {
    &&& s.codes.dom().finite()
    &&& s.users.dom().finite()
    &&& s.cookies.dom().finite()
}

/// A database file without any table.
pub open spec fn blank() -> Store {
    Store {
        tables: false,
        version: None,
        intel_v: None,
        codes: Map::empty(),
        users: Map::empty(),
        cookies: Map::empty(),
        history: None,
        staging: None,
    }
}

pub open spec fn message_id_taken(s: Store, message_id: i32) -> bool {
    exists|k: Seq<char>| #[trigger] s.codes.contains_key(k) && s.codes[k].message_id == message_id
}

/// The store after the write `w`, or `None` where the database refuses it.
pub open spec fn apply(s: Store, w: StatementView) -> Option<Store> {
    match w {
        StatementView::CreateSchema => if s.tables {
            None
        } else {
            Some(Store { tables: true, history: Some(Seq::empty()), staging: None, ..blank() })
        },
        _ => if !s.tables {
            None
        } else {
            match w {
                StatementView::InsertVersion => if s.version is Some {
                    None
                } else {
                    Some(Store { version: Some(current_version()), ..s })
                },
                StatementView::CreateHistoryV2 => if s.staging is Some {
                    None
                } else {
                    Some(Store { staging: Some(Seq::empty()), ..s })
                },
                StatementView::CopyHistory => match (s.staging, s.history) {
                    (Some(st), Some(h)) => Some(Store { staging: Some(st + h), ..s }),
                    _ => None,
                },
                StatementView::DropHistory => match s.history {
                    Some(_) => Some(Store { history: None, ..s }),
                    None => None,
                },
                StatementView::RenameHistoryV2 => match (s.staging, s.history) {
                    (Some(st), None) => Some(Store { history: Some(st), staging: None, ..s }),
                    _ => None,
                },
                StatementView::BumpVersion => Some(
                    Store {
                        version: if s.version is Some {
                            Some(current_version())
                        } else {
                            None
                        },
                        ..s
                    },
                ),
                StatementView::InsertCode { code, message_id } => if s.codes.contains_key(code)
                    || message_id_taken(s, message_id) {
                    None
                } else {
                    Some(Store { codes: s.codes.insert(code, CodeEntry { message_id, fr: false }), ..s })
                },
                StatementView::SetCodeFr { code, fr } => if s.codes.contains_key(code) {
                    Some(Store { codes: s.codes.insert(code, CodeEntry { fr, ..s.codes[code] }), ..s })
                } else {
                    Some(s)
                },
                StatementView::InsertUser { user, level } => if s.users.contains_key(user) {
                    None
                } else {
                    Some(Store { users: s.users.insert(user, level), ..s })
                },
                StatementView::UpdateUserLevel { user, level } => if s.users.contains_key(user) {
                    Some(Store { users: s.users.insert(user, level), ..s })
                } else {
                    Some(s)
                },
                StatementView::UpdateCookieTokens { id, csrf, session } => if s.cookies.contains_key(
                    id,
                ) {
                    Some(
                        Store {
                            cookies: s.cookies.insert(id, CookieEntry { csrf, session, ..s.cookies[id] }),
                            ..s
                        },
                    )
                } else {
                    Some(s)
                },
                StatementView::InsertCookie { id, csrf, session, belong } => if s.cookies.contains_key(
                    id,
                ) {
                    None
                } else {
                    Some(
                        Store {
                            cookies: s.cookies.insert(
                                id,
                                CookieEntry { csrf, session, last_login: 0, belong, enabled: true },
                            ),
                            ..s
                        },
                    )
                },
                StatementView::SetCookieEnabled { id, enabled } => if s.cookies.contains_key(id) {
                    Some(
                        Store { cookies: s.cookies.insert(id, CookieEntry { enabled, ..s.cookies[id] }), ..s },
                    )
                } else {
                    Some(s)
                },
                StatementView::SetCookieLastLogin { id, timestamp } => if s.cookies.contains_key(id) {
                    Some(
                        Store {
                            cookies: s.cookies.insert(
                                id,
                                CookieEntry { last_login: timestamp, ..s.cookies[id] },
                            ),
                            ..s
                        },
                    )
                } else {
                    Some(s)
                },
                StatementView::UpdateIntelVersion { v } => Some(
                    Store {
                        intel_v: if s.intel_v is Some {
                            Some(v)
                        } else {
                            None
                        },
                        ..s
                    },
                ),
                StatementView::InsertIntelVersion { v } => if s.intel_v is Some {
                    None
                } else {
                    Some(Store { intel_v: Some(v), ..s })
                },
                StatementView::InsertHistory { timestamp, id, code, error } => match s.history {
                    Some(h) => Some(
                        Store {
                            history: Some(h.push(HistoryRowView { timestamp, id, code, error })),
                            ..s
                        },
                    ),
                    None => None,
                },
                _ => Some(s),
            }
        },
    }
}

/// The row of `codes` stored under `code`.
pub open spec fn code_row(s: Store, code: Seq<char>) -> Option<CodeRowView> {
    if s.codes.contains_key(code) {
        Some(CodeRowView { code, message_id: s.codes[code].message_id, fr: s.codes[code].fr })
    } else {
        None
    }
}

/// The row of `users` stored for `user`.
pub open spec fn user_row(s: Store, user: i64) -> Option<User> {
    if s.users.contains_key(user) {
        Some(User { id: user, authorized: s.users[user] })
    } else {
        None
    }
}

/// The row of `cookies` stored under `id`.
pub open spec fn cookie_row(s: Store, id: Seq<char>) -> Option<CookieView> {
    if s.cookies.contains_key(id) {
        let c = s.cookies[id];
        Some(
            CookieView {
                id,
                csrf_token: c.csrf,
                session_id: c.session,
                last_login: c.last_login,
                belong: c.belong,
                enabled: c.enabled,
            },
        )
    } else {
        None
    }
}

/// `rows` lists, once each and in some order, the stored accounts that `keep` selects.
pub open spec fn lists_exactly(s: Store, rows: Seq<CookieView>, keep: spec_fn(CookieView) -> bool) -> bool {
    &&& forall|i: int, j: int| 0 <= i < j < rows.len() ==> rows[i].id != rows[j].id
    &&& forall|i: int|
        0 <= i < rows.len() ==> cookie_row(s, #[trigger] rows[i].id) == Some(rows[i]) && keep(rows[i])
    &&& forall|id: Seq<char>|
        #[trigger] s.cookies.contains_key(id) && keep(cookie_row(s, id).unwrap()) ==> exists|i: int|
            0 <= i < rows.len() && rows[i].id == id
}

/// The newest `n` rows of `rows`, newest first.
pub open spec fn newest(rows: Seq<HistoryRowView>, n: nat) -> Seq<HistoryRowView> {
    let r = rows.reverse();
    if r.len() <= n {
        r
    } else {
        r.take(n as int)
    }
}

/// Whether `a` is what the read `r` can return from `s`.
pub open spec fn answers(s: Store, r: StatementView, a: AnswerView) -> bool {
    match r {
        StatementView::MetaTableExists => a == AnswerView::Flag(s.tables),
        _ => if !s.tables {
            a == AnswerView::Failed
        } else {
            match r {
                StatementView::SchemaVersion => a == AnswerView::Version(s.version),
                StatementView::CodeByCode { code } => a == AnswerView::Code(code_row(s, code)),
                StatementView::UserById { user } => a == AnswerView::User(user_row(s, user)),
                StatementView::AuthorizedUser { user } => a == AnswerView::Flag(
                    s.users.contains_key(user) && s.users[user] == 1,
                ),
                StatementView::CookieById { id } => a == AnswerView::Cookie(cookie_row(s, id)),
                StatementView::CookiesOf { belong } => a matches AnswerView::Cookies(rows)
                    && lists_exactly(s, rows, |c: CookieView| c.belong == belong),
                StatementView::EnabledCookies => a matches AnswerView::Cookies(rows) && lists_exactly(
                    s,
                    rows,
                    |c: CookieView| c.enabled,
                ),
                StatementView::AllCookies => a matches AnswerView::Cookies(rows) && lists_exactly(
                    s,
                    rows,
                    |c: CookieView| true,
                ),
                StatementView::IntelVersion => a == AnswerView::Stats(s.intel_v),
                StatementView::HistoryOf { id } => match s.history {
                    Some(h) => a == AnswerView::History(
                        newest(h.filter(|e: HistoryRowView| e.id == id), 20),
                    ),
                    None => a == AnswerView::Failed,
                },
                StatementView::AllHistory => match s.history {
                    Some(h) => a == AnswerView::History(newest(h, 40)),
                    None => a == AnswerView::Failed,
                },
                _ => false,
            }
        },
    }
}

/// An oracle that answers every read on every well-formed store as the database does.
pub open spec fn faithful(oracle: spec_fn(Store, StatementView) -> AnswerView) -> bool {
    forall|s: Store, r: StatementView| wf(s) && r.is_read() ==> answers(s, r, #[trigger] oracle(s, r))
}

/// An oracle that picks, for each read, an answer the database can give.
pub open spec fn exact_oracle() -> spec_fn(Store, StatementView) -> AnswerView {
    |s: Store, r: StatementView| choose|a: AnswerView| answers(s, r, a)
}

/// `rows` lists, once each, the stored accounts whose ids are `ids`.
pub open spec fn lists_ids(s: Store, rows: Seq<CookieView>, ids: Set<Seq<char>>) -> bool {
    &&& forall|i: int, j: int| 0 <= i < j < rows.len() ==> rows[i].id != rows[j].id
    &&& forall|i: int|
        0 <= i < rows.len() ==> cookie_row(s, #[trigger] rows[i].id) == Some(rows[i]) && ids.contains(
            rows[i].id,
        )
    &&& forall|id: Seq<char>| #[trigger] ids.contains(id) ==> exists|i: int| 0 <= i < rows.len() && rows[i].id == id
}

/// Any finite set of stored accounts can be listed once each.
proof fn lemma_listing_exists(s: Store, ids: Set<Seq<char>>)
    requires
        ids.finite(),
        ids.subset_of(s.cookies.dom()),
    ensures
        exists|rows: Seq<CookieView>| lists_ids(s, rows, ids),
    decreases ids.len(),
{
    if ids.len() == 0 {
        assert(ids =~= Set::empty());
        assert(lists_ids(s, Seq::empty(), ids));
    } else {
        let x = ids.choose();
        let rest = ids.remove(x);
        lemma_listing_exists(s, rest);
        let prev = choose|rows: Seq<CookieView>| lists_ids(s, rows, rest);
        let rows = prev.push(cookie_row(s, x).unwrap());
        assert forall|i: int, j: int| 0 <= i < j < rows.len() implies rows[i].id != rows[j].id by {
            if j == prev.len() {
                assert(rest.contains(prev[i].id));
            }
        }
        assert forall|i: int| 0 <= i < rows.len() implies cookie_row(s, #[trigger] rows[i].id) == Some(
            rows[i],
        ) && ids.contains(rows[i].id) by {
            if i < prev.len() {
                assert(cookie_row(s, prev[i].id) == Some(prev[i]));
            }
        }
        assert forall|id: Seq<char>| #[trigger] ids.contains(id) implies exists|i: int|
            0 <= i < rows.len() && rows[i].id == id by {
            if id == x {
                assert(rows[prev.len() as int].id == id);
            } else {
                assert(rest.contains(id));
                let i = choose|i: int| 0 <= i < prev.len() && prev[i].id == id;
                assert(rows[i].id == id);
            }
        }
        assert(lists_ids(s, rows, ids));
    }
}

/// On a well-formed store, some list names exactly the accounts that `keep` selects.
proof fn lemma_selection_listable(s: Store, keep: spec_fn(CookieView) -> bool)
    requires
        wf(s),
    ensures
        exists|rows: Seq<CookieView>| lists_exactly(s, rows, keep),
{
    let ids = s.cookies.dom().filter(|k: Seq<char>| keep(cookie_row(s, k).unwrap()));
    assert(ids.subset_of(s.cookies.dom()));
    vstd::set_lib::lemma_len_subset(ids, s.cookies.dom());
    lemma_listing_exists(s, ids);
    let rows = choose|rows: Seq<CookieView>| lists_ids(s, rows, ids);
    assert forall|i: int| 0 <= i < rows.len() implies cookie_row(s, #[trigger] rows[i].id) == Some(
        rows[i],
    ) && keep(rows[i]) by {
        assert(ids.contains(rows[i].id));
    }
    assert forall|id: Seq<char>| #[trigger] s.cookies.contains_key(id) && keep(cookie_row(s, id).unwrap())
        implies exists|i: int| 0 <= i < rows.len() && rows[i].id == id by {
        assert(ids.contains(id));
    }
    assert(lists_exactly(s, rows, keep));
}

/// Every read on a well-formed store has an answer the database can give.
proof fn lemma_answer_exists(s: Store, r: StatementView)
    requires
        wf(s),
        r.is_read(),
    ensures
        exists|a: AnswerView| answers(s, r, a),
{
    match r {
        StatementView::MetaTableExists => {
            assert(answers(s, r, AnswerView::Flag(s.tables)));
        },
        _ => if !s.tables {
            assert(answers(s, r, AnswerView::Failed));
        } else {
            match r {
                StatementView::SchemaVersion => { assert(answers(s, r, AnswerView::Version(s.version))); },
                StatementView::CodeByCode { code } => { assert(
                    answers(s, r, AnswerView::Code(code_row(s, code)))
                ); },
                StatementView::UserById { user } => { assert(
                    answers(s, r, AnswerView::User(user_row(s, user)))
                ); },
                StatementView::AuthorizedUser { user } => { assert(
                    answers(
                        s,
                        r,
                        AnswerView::Flag(s.users.contains_key(user) && s.users[user] == 1),
                    )
                ); },
                StatementView::CookieById { id } => { assert(
                    answers(s, r, AnswerView::Cookie(cookie_row(s, id)))
                ); },
                StatementView::CookiesOf { belong } => {
                    let keep = |c: CookieView| c.belong == belong;
                    lemma_selection_listable(s, keep);
                    let rows = choose|rows: Seq<CookieView>| lists_exactly(s, rows, keep);
                    assert(answers(s, r, AnswerView::Cookies(rows)));
                },
                StatementView::EnabledCookies => {
                    let keep = |c: CookieView| c.enabled;
                    lemma_selection_listable(s, keep);
                    let rows = choose|rows: Seq<CookieView>| lists_exactly(s, rows, keep);
                    assert(answers(s, r, AnswerView::Cookies(rows)));
                },
                StatementView::AllCookies => {
                    let keep = |c: CookieView| true;
                    lemma_selection_listable(s, keep);
                    let rows = choose|rows: Seq<CookieView>| lists_exactly(s, rows, keep);
                    assert(answers(s, r, AnswerView::Cookies(rows)));
                },
                StatementView::IntelVersion => { assert(answers(s, r, AnswerView::Stats(s.intel_v))); },
                StatementView::HistoryOf { id } => match s.history {
                    Some(h) => { assert(
                        answers(
                            s,
                            r,
                            AnswerView::History(newest(h.filter(|e: HistoryRowView| e.id == id), 20)),
                        )
                    ); },
                    None => { assert(answers(s, r, AnswerView::Failed)); },
                },
                StatementView::AllHistory => match s.history {
                    Some(h) => { assert(answers(s, r, AnswerView::History(newest(h, 40)))); },
                    None => { assert(answers(s, r, AnswerView::Failed)); },
                },
                _ => {},
            }
        },
    }
}

/// Some oracle answers every read as the database does: the laws that
/// assume one assume something that holds.
pub proof fn law_faithful_oracle_exists()
    ensures
        faithful(exact_oracle()),
        exists|o: spec_fn(Store, StatementView) -> AnswerView| faithful(o),
{
    assert forall|s: Store, r: StatementView| wf(s) && r.is_read() implies answers(
        s,
        r,
        #[trigger] exact_oracle()(s, r),
    ) by {
        lemma_answer_exists(s, r);
    }
    assert(faithful(exact_oracle()));
}

/// How serving an event ended.
pub enum End {
    Replied(ReplyView),
    Finished,
    Aborted,
    Unfinished,
}

/// The store after an event was served, how it ended, and what was published.
pub struct Outcome {
    pub store: Store,
    pub end: End,
    pub published: Seq<BroadcastView>,
}

/// Performs `action` of `session` on `s` and goes on, for at most `fuel`
/// actions. A statement is run as its text and bound values, which
/// [`decode`] reads: reads are answered by `oracle`, writes change the store
/// or are refused as [`apply`] says, a text the database does not know fails;
/// publishing is recorded.
pub open spec fn drive(
    s: Store,
    session: Session,
    action: ActionView,
    oracle: spec_fn(Store, StatementView) -> AnswerView,
    published: Seq<BroadcastView>,
    fuel: nat,
) -> Outcome
    decreases fuel,
{
    if fuel == 0 {
        Outcome { store: s, end: End::Unfinished, published }
    } else {
        match action {
            ActionView::Run(st) => match decode(st.sql(), st.params()) {
                Some(r) => if r.is_read() {
                    let (n, a) = session.next(oracle(s, r));
                    drive(s, n, a, oracle, published, (fuel - 1) as nat)
                } else {
                    match apply(s, r) {
                        Some(s1) => {
                            let (n, a) = session.next(AnswerView::Done);
                            drive(s1, n, a, oracle, published, (fuel - 1) as nat)
                        },
                        None => {
                            let (n, a) = session.next(AnswerView::Failed);
                            drive(s, n, a, oracle, published, (fuel - 1) as nat)
                        },
                    }
                },
                None => {
                    let (n, a) = session.next(AnswerView::Failed);
                    drive(s, n, a, oracle, published, (fuel - 1) as nat)
                },
            },
            ActionView::Publish(e) => {
                let (n, a) = session.next(AnswerView::Done);
                drive(s, n, a, oracle, published.push(e), (fuel - 1) as nat)
            },
            ActionView::Respond(r) => Outcome { store: s, end: End::Replied(r), published },
            ActionView::Finish => Outcome { store: s, end: End::Finished, published },
            ActionView::Abort => Outcome { store: s, end: End::Aborted, published },
        }
    }
}

/// Serving `event` on `s` at `now`, from its first action to its end.
pub open spec fn serve(
    s: Store,
    event: DatabaseEvent,
    now: u64,
    oracle: spec_fn(Store, StatementView) -> AnswerView,
) -> Outcome {
    drive(s, Session { event, stage: 0 }, first_action(event, now), oracle, Seq::empty(), 8)
}

/// Performs the actions of opening on `s`, as [`drive`] does for events.
pub open spec fn drive_startup(
    s: Store,
    startup: Startup,
    action: ActionView,
    oracle: spec_fn(Store, StatementView) -> AnswerView,
    fuel: nat,
) -> Outcome
    decreases fuel,
{
    if fuel == 0 {
        Outcome { store: s, end: End::Unfinished, published: Seq::empty() }
    } else {
        match action {
            ActionView::Run(st) => match decode(st.sql(), st.params()) {
                Some(r) => if r.is_read() {
                    let (n, a) = startup.next(oracle(s, r));
                    drive_startup(s, n, a, oracle, (fuel - 1) as nat)
                } else {
                    match apply(s, r) {
                        Some(s1) => {
                            let (n, a) = startup.next(AnswerView::Done);
                            drive_startup(s1, n, a, oracle, (fuel - 1) as nat)
                        },
                        None => {
                            let (n, a) = startup.next(AnswerView::Failed);
                            drive_startup(s, n, a, oracle, (fuel - 1) as nat)
                        },
                    }
                },
                None => {
                    let (n, a) = startup.next(AnswerView::Failed);
                    drive_startup(s, n, a, oracle, (fuel - 1) as nat)
                },
            },
            ActionView::Respond(r) => Outcome { store: s, end: End::Replied(r), published: Seq::empty() },
            ActionView::Abort => Outcome { store: s, end: End::Aborted, published: Seq::empty() },
            _ => Outcome { store: s, end: End::Finished, published: Seq::empty() },
        }
    }
}

/// Opening the database `s`, from the first question to its end.
pub open spec fn open_store(s: Store, oracle: spec_fn(Store, StatementView) -> AnswerView) -> Outcome {
    drive_startup(
        s,
        Startup { stage: 0 },
        ActionView::Run(StatementView::MetaTableExists),
        oracle,
        12,
    )
}

} // verus!
