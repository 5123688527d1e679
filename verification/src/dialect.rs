//! The SQL dialect of the database: what running a text with values bound to
//! its placeholders does. Every text the library sends is read here from its
//! characters, so the meaning of a statement rests on the text and the values
//! that go out, not on the name the library gives the statement.
use vstd::prelude::*;
use crate::database::current_version;
use crate::model::{answers, apply, cookie_row, faithful, lists_exactly, wf, Store};
use crate::session::AnswerView;
use crate::types::{CookieView, HistoryRowView};
use crate::statement::{
    ParamView, StatementView, CREATE_STATEMENT, VERSION, SQL_ALL_COOKIES, SQL_ALL_HISTORY,
    SQL_AUTHORIZED_USER, SQL_BUMP_VERSION, SQL_CODE_BY_CODE, SQL_COOKIES_OF, SQL_COOKIE_BY_ID,
    SQL_COPY_HISTORY, SQL_CREATE_HISTORY_V2, SQL_DROP_HISTORY, SQL_ENABLED_COOKIES,
    SQL_HISTORY_OF, SQL_INSERT_CODE, SQL_INSERT_COOKIE, SQL_INSERT_HISTORY,
    SQL_INSERT_INTEL_VERSION, SQL_INSERT_USER, SQL_INSERT_VERSION, SQL_INTEL_VERSION,
    SQL_META_TABLE_EXISTS, SQL_RENAME_HISTORY_V2, SQL_SCHEMA_VERSION, SQL_SET_CODE_FR,
    SQL_SET_COOKIE_ENABLED, SQL_SET_COOKIE_LAST_LOGIN, SQL_UPDATE_COOKIE_TOKENS,
    SQL_UPDATE_INTEL_VERSION, SQL_UPDATE_USER_LEVEL, SQL_USER_BY_ID,
};

verus! {

/// The statement that the database performs when it runs the text `sql` with
/// the values `ps` bound to its placeholders in order, or `None` where the
/// text is none it knows or the values do not fit its placeholders.
pub open spec fn decode(sql: Seq<char>, ps: Seq<ParamView>) -> Option<StatementView> {
    if sql == SQL_META_TABLE_EXISTS@ {
        if ps.len() == 0 { Some(StatementView::MetaTableExists) } else { None }
    } else if sql == SQL_SCHEMA_VERSION@ {
        if ps.len() == 0 { Some(StatementView::SchemaVersion) } else { None }
    } else if sql == SQL_CODE_BY_CODE@ {
        if ps.len() == 1 && ps[0] is Text {
            Some(StatementView::CodeByCode { code: ps[0]->Text_0 })
        } else {
            None
        }
    } else if sql == SQL_USER_BY_ID@ {
        if ps.len() == 1 && ps[0] is Integer {
            Some(StatementView::UserById { user: ps[0]->Integer_0 })
        } else {
            None
        }
    } else if sql == SQL_AUTHORIZED_USER@ {
        if ps.len() == 1 && ps[0] is Integer {
            Some(StatementView::AuthorizedUser { user: ps[0]->Integer_0 })
        } else {
            None
        }
    } else if sql == SQL_COOKIE_BY_ID@ {
        if ps.len() == 1 && ps[0] is Text {
            Some(StatementView::CookieById { id: ps[0]->Text_0 })
        } else {
            None
        }
    } else if sql == SQL_COOKIES_OF@ {
        if ps.len() == 1 && ps[0] is Integer {
            Some(StatementView::CookiesOf { belong: ps[0]->Integer_0 })
        } else {
            None
        }
    } else if sql == SQL_ENABLED_COOKIES@ {
        if ps.len() == 0 { Some(StatementView::EnabledCookies) } else { None }
    } else if sql == SQL_ALL_COOKIES@ {
        if ps.len() == 0 { Some(StatementView::AllCookies) } else { None }
    } else if sql == SQL_INTEL_VERSION@ {
        if ps.len() == 0 { Some(StatementView::IntelVersion) } else { None }
    } else if sql == SQL_HISTORY_OF@ {
        if ps.len() == 1 && ps[0] is Text {
            Some(StatementView::HistoryOf { id: ps[0]->Text_0 })
        } else {
            None
        }
    } else if sql == SQL_ALL_HISTORY@ {
        if ps.len() == 0 { Some(StatementView::AllHistory) } else { None }
    } else if sql == CREATE_STATEMENT@ {
        if ps.len() == 0 { Some(StatementView::CreateSchema) } else { None }
    } else if sql == SQL_INSERT_VERSION@ {
        if ps == seq![ParamView::Text(current_version())] { Some(StatementView::InsertVersion) } else { None }
    } else if sql == SQL_CREATE_HISTORY_V2@ {
        if ps.len() == 0 { Some(StatementView::CreateHistoryV2) } else { None }
    } else if sql == SQL_COPY_HISTORY@ {
        if ps.len() == 0 { Some(StatementView::CopyHistory) } else { None }
    } else if sql == SQL_DROP_HISTORY@ {
        if ps.len() == 0 { Some(StatementView::DropHistory) } else { None }
    } else if sql == SQL_RENAME_HISTORY_V2@ {
        if ps.len() == 0 { Some(StatementView::RenameHistoryV2) } else { None }
    } else if sql == SQL_BUMP_VERSION@ {
        if ps.len() == 0 { Some(StatementView::BumpVersion) } else { None }
    } else if sql == SQL_INSERT_CODE@ {
        if ps.len() == 2 && ps[0] is Text && ps[1] is SmallInteger {
            Some(StatementView::InsertCode { code: ps[0]->Text_0, message_id: ps[1]->SmallInteger_0 })
        } else {
            None
        }
    } else if sql == SQL_SET_CODE_FR@ {
        if ps.len() == 2 && ps[0] is Flag && ps[1] is Text {
            Some(StatementView::SetCodeFr { fr: ps[0]->Flag_0, code: ps[1]->Text_0 })
        } else {
            None
        }
    } else if sql == SQL_INSERT_USER@ {
        if ps.len() == 2 && ps[0] is Integer && ps[1] is SmallInteger {
            Some(StatementView::InsertUser { user: ps[0]->Integer_0, level: ps[1]->SmallInteger_0 })
        } else {
            None
        }
    } else if sql == SQL_UPDATE_USER_LEVEL@ {
        if ps.len() == 2 && ps[0] is SmallInteger && ps[1] is Integer {
            Some(StatementView::UpdateUserLevel { level: ps[0]->SmallInteger_0, user: ps[1]->Integer_0 })
        } else {
            None
        }
    } else if sql == SQL_UPDATE_COOKIE_TOKENS@ {
        if ps.len() == 3 && ps[0] is Text && ps[1] is Text && ps[2] is Text {
            Some(StatementView::UpdateCookieTokens { csrf: ps[0]->Text_0, session: ps[1]->Text_0, id: ps[2]->Text_0 })
        } else {
            None
        }
    } else if sql == SQL_INSERT_COOKIE@ {
        if ps.len() == 4 && ps[0] is Text && ps[1] is Text && ps[2] is Text && ps[3] is Integer {
            Some(StatementView::InsertCookie { id: ps[0]->Text_0, csrf: ps[1]->Text_0, session: ps[2]->Text_0, belong: ps[3]->Integer_0 })
        } else {
            None
        }
    } else if sql == SQL_SET_COOKIE_ENABLED@ {
        if ps.len() == 2 && ps[0] is Flag && ps[1] is Text {
            Some(StatementView::SetCookieEnabled { enabled: ps[0]->Flag_0, id: ps[1]->Text_0 })
        } else {
            None
        }
    } else if sql == SQL_SET_COOKIE_LAST_LOGIN@ {
        if ps.len() == 2 && ps[0] is Integer && ps[1] is Text {
            Some(StatementView::SetCookieLastLogin { timestamp: ps[0]->Integer_0, id: ps[1]->Text_0 })
        } else {
            None
        }
    } else if sql == SQL_UPDATE_INTEL_VERSION@ {
        if ps.len() == 1 && ps[0] is StatsDocument {
            Some(StatementView::UpdateIntelVersion { v: ps[0]->StatsDocument_0 })
        } else {
            None
        }
    } else if sql == SQL_INSERT_INTEL_VERSION@ {
        if ps.len() == 1 && ps[0] is StatsDocument {
            Some(StatementView::InsertIntelVersion { v: ps[0]->StatsDocument_0 })
        } else {
            None
        }
    } else if sql == SQL_INSERT_HISTORY@ {
        if ps.len() == 4 && ps[0] is Integer && ps[1] is Text && ps[2] is Text && ps[3] is OptionalText {
            Some(StatementView::InsertHistory { timestamp: ps[0]->Integer_0, id: ps[1]->Text_0, code: ps[2]->Text_0, error: ps[3]->OptionalText_0 })
        } else {
            None
        }
    } else {
        None
    }
}

/// The lengths of the statement texts, and where two are equally long, a
/// character in which they differ: no two of them are the same text.
proof fn lemma_statement_texts()
    ensures
        SQL_META_TABLE_EXISTS@.len() == 66,
        SQL_SCHEMA_VERSION@.len() == 50,
        SQL_CODE_BY_CODE@.len() == 39,
        SQL_USER_BY_ID@.len() == 36,
        SQL_AUTHORIZED_USER@.len() == 57,
        SQL_COOKIE_BY_ID@.len() == 38,
        SQL_COOKIES_OF@.len() == 42,
        SQL_ENABLED_COOKIES@.len() == 43,
        SQL_ALL_COOKIES@.len() == 22,
        SQL_INTEL_VERSION@.len() == 44,
        SQL_HISTORY_OF@.len() == 105,
        SQL_ALL_HISTORY@.len() == 90,
        CREATE_STATEMENT@.len() == 1103,
        SQL_INSERT_VERSION@.len() == 40,
        SQL_CREATE_HISTORY_V2@.len() == 329,
        SQL_COPY_HISTORY@.len() == 118,
        SQL_DROP_HISTORY@.len() == 20,
        SQL_RENAME_HISTORY_V2@.len() == 44,
        SQL_BUMP_VERSION@.len() == 56,
        SQL_INSERT_CODE@.len() == 36,
        SQL_SET_CODE_FR@.len() == 44,
        SQL_INSERT_USER@.len() == 33,
        SQL_UPDATE_USER_LEVEL@.len() == 50,
        SQL_UPDATE_COOKIE_TOKENS@.len() == 69,
        SQL_INSERT_COOKIE@.len() == 47,
        SQL_SET_COOKIE_ENABLED@.len() == 49,
        SQL_SET_COOKIE_LAST_LOGIN@.len() == 52,
        SQL_UPDATE_INTEL_VERSION@.len() == 53,
        SQL_INSERT_INTEL_VERSION@.len() == 40,
        SQL_INSERT_HISTORY@.len() == 78,
        SQL_SCHEMA_VERSION@[0] == 'S',
        SQL_UPDATE_USER_LEVEL@[0] == 'U',
        SQL_INSERT_VERSION@[27] == '"',
        SQL_INSERT_INTEL_VERSION@[27] == '\'',
        SQL_RENAME_HISTORY_V2@[0] == 'A',
        SQL_SET_CODE_FR@[0] == 'U',
        SQL_INTEL_VERSION@[0] == 'S',
        SQL_INSERT_CODE@[0] == 'I',
        SQL_USER_BY_ID@[0] == 'S',
        VERSION@ == current_version(),
{
    reveal_strlit(r#"SELECT 1 FROM sqlite_master WHERE type='table' AND "name" = 'meta'"#);
    reveal_strlit(r#"SELECT "value" FROM "meta" WHERE "key" = 'version'"#);
    reveal_strlit(r#"SELECT * FROM "codes" WHERE "code" = ? "#);
    reveal_strlit(r#"SELECT * FROM "users" WHERE "id" = ?"#);
    reveal_strlit(r#"SELECT 1 FROM "users" WHERE "id" = ? AND "authorized" = 1"#);
    reveal_strlit(r#"SELECT * FROM "cookies" WHERE "id" = ?"#);
    reveal_strlit(r#"SELECT * FROM "cookies" WHERE "belong" = ?"#);
    reveal_strlit(r#"SELECT* FROM "cookies"  WHERE "enabled" = 1"#);
    reveal_strlit(r#"SELECT* FROM "cookies""#);
    reveal_strlit(r#"SELECT * FROM "meta" WHERE "key" = 'intel_v'"#);
    reveal_strlit(r#"SELECT "timestamp", "id", "code", "error" FROM "history" WHERE "id" = ? ORDER BY "entry_id" DESC LIMIT 20"#);
    reveal_strlit(r#"SELECT "timestamp", "id", "code", "error" FROM "history" ORDER BY "entry_id" DESC LIMIT 40"#);
    reveal_strlit(r#"
        CREATE TABLE "codes" (
            "code"	TEXT NOT NULL UNIQUE,
            "message_id"	INTEGER NOT NULL UNIQUE,
            "fr"	INTEGER NOT NULL DEFAULT 0,
            PRIMARY KEY("code")
        );

        CREATE TABLE "meta" (
            "key"	TEXT NOT NULL,
            "value"	TEXT,
            PRIMARY KEY("key")
        );

        CREATE TABLE "users" (
            "id"	INTEGER NOT NULL,
            "authorized"	INTEGER NOT NULL,
            PRIMARY KEY("id")
        );

        CREATE TABLE "cookies" (
            "id"    TEXT NOT NULL,
            "csrf_token" TEXT NOT NULL,
            "session_id" TEXT NOT NULL,
            "last_login" INTEGER NOT NULL,
            "belong" INTEGER NOT NULL,
            "enabled" INTEGER NOT NULL DEFAULT 1,
            PRIMARY KEY("id")
        );

        CREATE TABLE "history" (
            "entry_id" INTEGER NOT NULL,
            "timestamp" INTEGER NOT NULL,
            "id"        TEXT NOT NULL,
            "code"      TEXT NOT NULL,
            "error"     TEXT,
	        PRIMARY KEY("entry_id" AUTOINCREMENT)
        );
    "#);
    reveal_strlit(r#"INSERT INTO "meta" VALUES ("version", ?)"#);
    reveal_strlit(r#"
            CREATE TABLE "history_v2" (
                "entry_id" INTEGER NOT NULL,
                "timestamp" INTEGER NOT NULL,
                "id"        TEXT NOT NULL,
                "code"      TEXT NOT NULL,
                "error"     TEXT,
                PRIMARY KEY("entry_id" AUTOINCREMENT)
            );
        "#);
    reveal_strlit(r#"INSERT INTO "history_v2" ("timestamp", "id", "code", "error") SELECT "timestamp", "id", "code", "error" FROM "history""#);
    reveal_strlit(r#"DROP TABLE "history""#);
    reveal_strlit(r#"ALTER TABLE "history_v2" RENAME TO "history""#);
    reveal_strlit(r#"UPDATE "meta" SET "value" = '2' WHERE "key" = 'version' "#);
    reveal_strlit(r#"INSERT INTO "codes" VALUES (?, ?, 0)"#);
    reveal_strlit(r#"UPDATE "codes" SET "fr" = ? WHERE "code" = ?"#);
    reveal_strlit(r#"INSERT INTO "users" VALUES (?, ?)"#);
    reveal_strlit(r#"UPDATE "users" SET "authorized" = ? WHERE "id" = ?"#);
    reveal_strlit(r#"UPDATE "cookies" SET "csrf_token"= ?, "session_id" = ? WHERE "id" = ?"#);
    reveal_strlit(r#"INSERT INTO "cookies" VALUES (?, ?, ?, 0, ?, 1)"#);
    reveal_strlit(r#"UPDATE "cookies" SET "enabled" = ? WHERE "id" = ?"#);
    reveal_strlit(r#"UPDATE "cookies" SET "last_login" = ? WHERE "id" = ?"#);
    reveal_strlit(r#"UPDATE "meta" SET "value" = ? WHERE "key" = 'intel_v'"#);
    reveal_strlit(r#"INSERT INTO "meta" VALUES ('intel_v', ?)"#);
    reveal_strlit(r#"INSERT INTO "history" ("timestamp", "id", "code", "error") VALUES (?, ?, ?, ?)"#);
    reveal_strlit("2");
    assert(VERSION@ =~= current_version());
}

/// Running the text of a statement with the values it binds performs that
/// statement: each text names one statement, and its values fill the
/// placeholders of that statement in the order the text gives them.
pub broadcast proof fn law_statement_text_decodes(st: StatementView)
    ensures
        #[trigger] decode(st.sql(), st.params()) == Some(st),
{
    lemma_statement_texts();
    match st {
        StatementView::MetaTableExists => {},
        StatementView::SchemaVersion => {},
        StatementView::CodeByCode { .. } => {},
        StatementView::UserById { .. } => {},
        StatementView::AuthorizedUser { .. } => {},
        StatementView::CookieById { .. } => {},
        StatementView::CookiesOf { .. } => {},
        StatementView::EnabledCookies => {},
        StatementView::AllCookies => {},
        StatementView::IntelVersion => {},
        StatementView::HistoryOf { .. } => {},
        StatementView::AllHistory => {},
        StatementView::CreateSchema => {},
        StatementView::InsertVersion => {},
        StatementView::CreateHistoryV2 => {},
        StatementView::CopyHistory => {},
        StatementView::DropHistory => {},
        StatementView::RenameHistoryV2 => {},
        StatementView::BumpVersion => {},
        StatementView::InsertCode { .. } => {},
        StatementView::SetCodeFr { .. } => {},
        StatementView::InsertUser { .. } => {},
        StatementView::UpdateUserLevel { .. } => {},
        StatementView::UpdateCookieTokens { .. } => {},
        StatementView::InsertCookie { .. } => {},
        StatementView::SetCookieEnabled { .. } => {},
        StatementView::SetCookieLastLogin { .. } => {},
        StatementView::UpdateIntelVersion { .. } => {},
        StatementView::InsertIntelVersion { .. } => {},
        StatementView::InsertHistory { .. } => {},
    }
}

/// The text of the migration's copy step, run on a store that holds both
/// history tables, appends every row of `history`, in order, to `history_v2`
/// and changes nothing else.
pub proof fn law_copy_text_keeps_history(
    s: Store,
    staged: Seq<HistoryRowView>,
    rows: Seq<HistoryRowView>,
)
    requires
        s.tables,
        s.staging == Some(staged),
        s.history == Some(rows),
    ensures
        decode(StatementView::CopyHistory.sql(), StatementView::CopyHistory.params()) matches Some(
            w,
        ) && apply(s, w) == Some(Store { staging: Some(staged + rows), ..s }),
{
    lemma_statement_texts();
}

/// The text of the account lookup, run with an id bound, reads and answers
/// the row stored in `cookies` under that id.
pub proof fn law_cookie_lookup_text(
    s: Store,
    id: Seq<char>,
    oracle: spec_fn(Store, StatementView) -> AnswerView,
)
    requires
        s.tables,
        wf(s),
        faithful(oracle),
    ensures
        ({
            let q = StatementView::CookieById { id };
            decode(q.sql(), q.params()) matches Some(r) && r.is_read() && oracle(s, r)
                == AnswerView::Cookie(cookie_row(s, id))
        }),
{
    lemma_statement_texts();
    let q = StatementView::CookieById { id };
    assert(answers(s, q, oracle(s, q)));
}

/// The text of the listing of a user's accounts, run with the user bound,
/// reads and answers, once each, exactly the stored accounts that belong to
/// that user.
pub proof fn law_user_accounts_text(
    s: Store,
    owner: i64,
    oracle: spec_fn(Store, StatementView) -> AnswerView,
)
    requires
        s.tables,
        wf(s),
        faithful(oracle),
    ensures
        ({
            let q = StatementView::CookiesOf { belong: owner };
            decode(q.sql(), q.params()) matches Some(r) && r.is_read() && (oracle(s, r) matches AnswerView::Cookies(
                rows,
            ) && lists_exactly(s, rows, |c: CookieView| c.belong == owner))
        }),
{
    lemma_statement_texts();
    let q = StatementView::CookiesOf { belong: owner };
    assert(answers(s, q, oracle(s, q)));
}

/// The text that first records the client version, run with its bound value
/// on a store that has none, records `v`: the value bound is the version
/// document of `v`, which a later version query reads back as `v`.
pub proof fn law_intel_version_insert_text(s: Store, v: Seq<char>)
    requires
        s.tables,
        s.intel_v is None,
    ensures
        ({
            let w = StatementView::InsertIntelVersion { v };
            decode(w.sql(), w.params()) matches Some(x) && apply(s, x) == Some(
                Store { intel_v: Some(v), ..s },
            )
        }),
{
    lemma_statement_texts();
}

/// The text that records a login, run with its bound values, sets the
/// `last_login` of the account `id` to `timestamp` and leaves every other
/// column and every other account as it was.
pub proof fn law_last_login_text(s: Store, id: Seq<char>, timestamp: i64)
    requires
        s.tables,
        s.cookies.contains_key(id),
    ensures
        ({
            let w = StatementView::SetCookieLastLogin { id, timestamp };
            decode(w.sql(), w.params()) matches Some(x) && (apply(s, x) matches Some(after) && cookie_row(
                after,
                id,
            ) == Some(CookieView { last_login: timestamp, ..cookie_row(s, id).unwrap() }) && forall|
                k: Seq<char>,
            | k != id ==> #[trigger] cookie_row(after, k) == cookie_row(s, k))
        }),
{
    lemma_statement_texts();
}

} // verus!
