//! The statements behind each operation of the database, and the decisions
//! that pick the next statement from what an earlier one returned.
use vstd::prelude::*;
use crate::statement::{Statement, StatementView, VERSION, LEGACY_VERSION};
use crate::types::{AccessLevel, Cookie, CookieView, User, VStats};

verus! {

pub open spec fn opt_statement_view(s: Option<Statement>) -> Option<StatementView> {
    match s {
        Some(t) => Some(t@),
        None => None,
    }
}

pub open spec fn opt_cookie_view(c: Option<Cookie>) -> Option<CookieView> {
    match c {
        Some(k) => Some(k@),
        None => None,
    }
}

pub open spec fn opt_stats_view(s: Option<VStats>) -> Option<Seq<char>> {
    match s {
        Some(k) => Some(k@),
        None => None,
    }
}

/// The text of the version that calls for the first migration.
pub open spec fn legacy_version() -> Seq<char> {
    seq!['1']
}

/// The text of the version this build writes.
pub open spec fn current_version() -> Seq<char> {
    seq!['2']
}

/// Whether the `meta` table exists, that is whether the schema was created.
pub fn check_database_table() -> (r: Statement)
    ensures
        r@ == StatementView::MetaTableExists,
{
    Statement::MetaTableExists
}

/// The stored schema version.
pub fn check_database_version() -> (r: Statement)
    ensures
        r@ == StatementView::SchemaVersion,
{
    Statement::SchemaVersion
}

/// Records the current schema version; its only bound value is
/// [`crate::statement::VERSION`], the text `2`.
pub fn insert_database_version() -> (r: Statement)
    ensures
        r@ == StatementView::InsertVersion,
        r@.params() == seq![crate::statement::ParamView::Text(current_version())],
{
    proof {
        reveal_strlit("2");
        assert(VERSION@ =~= current_version());
    }
    Statement::InsertVersion
}

/// Creates every table of the current schema.
pub fn create_db() -> (r: Statement)
    ensures
        r@ == StatementView::CreateSchema,
{
    Statement::CreateSchema
}

/// Whether the stored version calls for the migration to the current schema:
/// exactly when it is the legacy version `1`.
pub fn migration(version: &Option<String>) -> (r: bool)
    ensures
        r == (version matches Some(v) && v@ == legacy_version()),
{
    match version {
        Some(v) => {
            let legacy: String = LEGACY_VERSION.to_owned();
            proof {
                reveal_strlit("1");
                assert(legacy@ =~= legacy_version());
            }
            *v == legacy
        },
        None => false,
    }
}

/// The statements of the migration from the legacy schema, in the order they run.
pub fn migration_v1() -> (r: Vec<Statement>)
    ensures
        r@.map_values(|s: Statement| s@) == seq![
            StatementView::CreateHistoryV2,
            StatementView::CopyHistory,
            StatementView::DropHistory,
            StatementView::RenameHistoryV2,
            StatementView::BumpVersion,
        ],
{
    let r = vec![
        Statement::CreateHistoryV2,
        Statement::CopyHistory,
        Statement::DropHistory,
        Statement::RenameHistoryV2,
        Statement::BumpVersion,
    ];
    proof {
        assert(r@.map_values(|s: Statement| s@) =~= seq![
            StatementView::CreateHistoryV2,
            StatementView::CopyHistory,
            StatementView::DropHistory,
            StatementView::RenameHistoryV2,
            StatementView::BumpVersion,
        ]);
    }
    r
}

/// The query that tells whether `user` holds the stored level 1; a negative id
/// is refused without a query (`None`, read as "not authorized").
pub fn _check_auth(user: i64) -> (r: Option<Statement>)
    ensures
        user < 0 ==> r is None,
        user >= 0 ==> opt_statement_view(r) == Some(StatementView::AuthorizedUser { user }),
{
    if user < 0 {
        None
    } else {
        Some(Statement::AuthorizedUser { user })
    }
}

pub fn query_code(code: &str) -> (r: Statement)
    ensures
        r@ == (StatementView::CodeByCode { code: code@ }),
{
    Statement::CodeByCode { code: code.to_owned() }
}

pub fn insert_code(code: &str, message_id: i32) -> (r: Statement)
    ensures
        r@ == (StatementView::InsertCode { code: code@, message_id }),
{
    Statement::InsertCode { code: code.to_owned(), message_id }
}

pub fn set_code_fr(code: &str, is_fr: bool) -> (r: Statement)
    ensures
        r@ == (StatementView::SetCodeFr { code: code@, fr: is_fr }),
{
    Statement::SetCodeFr { code: code.to_owned(), fr: is_fr }
}

pub fn query_user(user: i64) -> (r: Statement)
    ensures
        r@ == (StatementView::UserById { user }),
{
    Statement::UserById { user }
}

pub fn insert_user(user: i64, level: AccessLevel) -> (r: Statement)
    ensures
        r@ == (StatementView::InsertUser { user, level: level.code() }),
{
    Statement::InsertUser { user, level: level.i32() }
}

/// What bringing `user` to `level` writes, given the row `current` now stored
/// for that user: nothing when the stored level is already `level`, an update
/// when another level is stored, an insertion when the user has no row.
pub open spec fn authorization_write(user: i64, level: AccessLevel, current: Option<User>) -> Option<
    StatementView,
> {
    match current {
        Some(cur) => if cur.authorized == level.code() {
            None
        } else {
            Some(StatementView::UpdateUserLevel { user, level: level.code() })
        },
        None => Some(StatementView::InsertUser { user, level: level.code() }),
    }
}

/// The write of `set_authorized_status`, decided from the row `current` that the
/// query of `user` returned.
pub fn set_authorized_status(user: i64, level: AccessLevel, current: &Option<User>) -> (r: Option<
    Statement,
>)
    ensures
        opt_statement_view(r) == authorization_write(user, level, *current),
{
    match current {
        Some(cur) => {
            if cur.authorized() == level.i32() {
                return None;
            }
            Some(Statement::UpdateUserLevel { user, level: level.i32() })
        },
        None => Some(insert_user(user, level)),
    }
}

/// What storing the session `csrf`/`session` of account `id` for `user` does,
/// given the row `existing` now stored for `id`: an account of another user is
/// refused (`false`, no write); an account of `user` gets its tokens replaced; a
/// new account is inserted for `user`.
pub open spec fn cookie_write(
    user: i64,
    csrf: Seq<char>,
    session: Seq<char>,
    id: Seq<char>,
    existing: Option<CookieView>,
) -> (bool, Option<StatementView>) {
    match existing {
        Some(c) => if c.belong != user {
            (false, None)
        } else {
            (true, Some(StatementView::UpdateCookieTokens { id, csrf, session }))
        },
        None => (true, Some(StatementView::InsertCookie { id, csrf, session, belong: user })),
    }
}

/// The answer and the write of `cookie_set`, decided from the row `existing`
/// that the query of `id` returned.
pub fn cookie_set(user: i64, csrf: &str, session: &str, id: &str, existing: &Option<Cookie>) -> (r: (
    bool,
    Option<Statement>,
))
    ensures
        (r.0, opt_statement_view(r.1)) == cookie_write(
            user,
            csrf@,
            session@,
            id@,
            opt_cookie_view(*existing),
        ),
{
    match existing {
        Some(cookie) => {
            if cookie.belong() != user {
                return (false, None);
            }
            (
                true,
                Some(
                    Statement::UpdateCookieTokens {
                        id: id.to_owned(),
                        csrf: csrf.to_owned(),
                        session: session.to_owned(),
                    },
                ),
            )
        },
        None => (
            true,
            Some(
                Statement::InsertCookie {
                    id: id.to_owned(),
                    csrf: csrf.to_owned(),
                    session: session.to_owned(),
                    belong: user,
                },
            ),
        ),
    }
}

pub fn cookie_usable(id: &str, usable: bool) -> (r: Statement)
    ensures
        r@ == (StatementView::SetCookieEnabled { id: id@, enabled: usable }),
{
    Statement::SetCookieEnabled { id: id.to_owned(), enabled: usable }
}

/// Records `now`, seconds since the epoch, as the last login of account `id`.
pub fn cookie_update_timestamp(id: &str, now: u64) -> (r: Statement)
    ensures
        r@ == (StatementView::SetCookieLastLogin { id: id@, timestamp: now as i64 }),
{
    Statement::SetCookieLastLogin { id: id.to_owned(), timestamp: now as i64 }
}

pub fn cookie_query(id: &str) -> (r: Statement)
    ensures
        r@ == (StatementView::CookieById { id: id@ }),
{
    Statement::CookieById { id: id.to_owned() }
}

pub fn cookie_query_user(id: i64) -> (r: Statement)
    ensures
        r@ == (StatementView::CookiesOf { belong: id }),
{
    Statement::CookiesOf { belong: id }
}

pub fn cookie_query_all_enabled() -> (r: Statement)
    ensures
        r@ == StatementView::EnabledCookies,
{
    Statement::EnabledCookies
}

pub fn cookie_query_all() -> (r: Statement)
    ensures
        r@ == StatementView::AllCookies,
{
    Statement::AllCookies
}

pub fn v_query() -> (r: Statement)
    ensures
        r@ == StatementView::IntelVersion,
{
    Statement::IntelVersion
}

/// What recording the client version `v` writes, given the version `stored`:
/// nothing when it is already `v`, an update when another is stored, an
/// insertion when none is.
pub open spec fn stats_write(v: Seq<char>, stored: Option<Seq<char>>) -> Option<StatementView> {
    match stored {
        Some(s) => if s == v {
            None
        } else {
            Some(StatementView::UpdateIntelVersion { v })
        },
        None => Some(StatementView::InsertIntelVersion { v }),
    }
}

/// The write of `v_update`, decided from the version `stored` that the query returned.
pub fn v_update(v: String, stored: &Option<VStats>) -> (r: Option<Statement>)
    ensures
        opt_statement_view(r) == stats_write(v@, opt_stats_view(*stored)),
{
    match stored {
        Some(db_v) => {
            if v == db_v.v {
                return None;
            }
            Some(Statement::UpdateIntelVersion { v })
        },
        None => Some(Statement::InsertIntelVersion { v }),
    }
}

/// Appends the redemption attempt of `code` with account `id`, made at `now`
/// seconds since the epoch, to the history.
pub fn log_add(id: &str, code: &str, error: Option<String>, now: u64) -> (r: Statement)
    ensures
        r@ == (StatementView::InsertHistory {
            timestamp: now as i64,
            id: id@,
            code: code@,
            error: crate::types::opt_view(error),
        }),
{
    Statement::InsertHistory { timestamp: now as i64, id: id.to_owned(), code: code.to_owned(), error }
}

/// The last twenty attempts made with account `id`, newest first.
pub fn log_query(id: &str) -> (r: Statement)
    ensures
        r@ == (StatementView::HistoryOf { id: id@ }),
{
    Statement::HistoryOf { id: id.to_owned() }
}

/// The last forty attempts, newest first.
pub fn log_query_all() -> (r: Statement)
    ensures
        r@ == StatementView::AllHistory,
{
    Statement::AllHistory
}

} // verus!
