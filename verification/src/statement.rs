//! The SQL statements the database task runs, with the values bound to them.
use vstd::prelude::*;
use crate::types::opt_view;

verus! {

/// The schema version this build writes and expects.
pub const VERSION: &'static str = "2";

/// The schema version that predates the autoincrementing history table.
pub const LEGACY_VERSION: &'static str = "1";

/// The tables of the current schema.
pub const CREATE_STATEMENT: &'static str = r#"
        CREATE TABLE "codes" (
            "code"	TEXT NOT NULL UNIQUE,
            "message_id"	INTEGER NOT NULL UNIQUE,
            "fr"	INTEGER NOT NULL DEFAULT 0,
            PRIMARY KEY("code")
        );

        CREATE TABLE "meta" (
            "key"	TEXT NOT NULL,
            "value"	TEXT,
            PRIMARY KEY("key")
        );

        CREATE TABLE "users" (
            "id"	INTEGER NOT NULL,
            "authorized"	INTEGER NOT NULL,
            PRIMARY KEY("id")
        );

        CREATE TABLE "cookies" (
            "id"    TEXT NOT NULL,
            "csrf_token" TEXT NOT NULL,
            "session_id" TEXT NOT NULL,
            "last_login" INTEGER NOT NULL,
            "belong" INTEGER NOT NULL,
            "enabled" INTEGER NOT NULL DEFAULT 1,
            PRIMARY KEY("id")
        );

        CREATE TABLE "history" (
            "entry_id" INTEGER NOT NULL,
            "timestamp" INTEGER NOT NULL,
            "id"        TEXT NOT NULL,
            "code"      TEXT NOT NULL,
            "error"     TEXT,
	        PRIMARY KEY("entry_id" AUTOINCREMENT)
        );
    "#;

pub const SQL_META_TABLE_EXISTS: &'static str = r#"SELECT 1 FROM sqlite_master WHERE type='table' AND "name" = 'meta'"#;
pub const SQL_SCHEMA_VERSION: &'static str = r#"SELECT "value" FROM "meta" WHERE "key" = 'version'"#;
pub const SQL_INSERT_VERSION: &'static str = r#"INSERT INTO "meta" VALUES ("version", ?)"#;
pub const SQL_CREATE_HISTORY_V2: &'static str = r#"
            CREATE TABLE "history_v2" (
                "entry_id" INTEGER NOT NULL,
                "timestamp" INTEGER NOT NULL,
                "id"        TEXT NOT NULL,
                "code"      TEXT NOT NULL,
                "error"     TEXT,
                PRIMARY KEY("entry_id" AUTOINCREMENT)
            );
        "#;
pub const SQL_COPY_HISTORY: &'static str = r#"INSERT INTO "history_v2" ("timestamp", "id", "code", "error") SELECT "timestamp", "id", "code", "error" FROM "history""#;
pub const SQL_DROP_HISTORY: &'static str = r#"DROP TABLE "history""#;
pub const SQL_RENAME_HISTORY_V2: &'static str = r#"ALTER TABLE "history_v2" RENAME TO "history""#;
pub const SQL_BUMP_VERSION: &'static str = r#"UPDATE "meta" SET "value" = '2' WHERE "key" = 'version' "#;
pub const SQL_CODE_BY_CODE: &'static str = r#"SELECT * FROM "codes" WHERE "code" = ? "#;
pub const SQL_INSERT_CODE: &'static str = r#"INSERT INTO "codes" VALUES (?, ?, 0)"#;
pub const SQL_SET_CODE_FR: &'static str = r#"UPDATE "codes" SET "fr" = ? WHERE "code" = ?"#;
pub const SQL_USER_BY_ID: &'static str = r#"SELECT * FROM "users" WHERE "id" = ?"#;
pub const SQL_AUTHORIZED_USER: &'static str = r#"SELECT 1 FROM "users" WHERE "id" = ? AND "authorized" = 1"#;
pub const SQL_INSERT_USER: &'static str = r#"INSERT INTO "users" VALUES (?, ?)"#;
pub const SQL_UPDATE_USER_LEVEL: &'static str = r#"UPDATE "users" SET "authorized" = ? WHERE "id" = ?"#;
pub const SQL_COOKIE_BY_ID: &'static str = r#"SELECT * FROM "cookies" WHERE "id" = ?"#;
pub const SQL_UPDATE_COOKIE_TOKENS: &'static str = r#"UPDATE "cookies" SET "csrf_token"= ?, "session_id" = ? WHERE "id" = ?"#;
pub const SQL_INSERT_COOKIE: &'static str = r#"INSERT INTO "cookies" VALUES (?, ?, ?, 0, ?, 1)"#;
pub const SQL_SET_COOKIE_ENABLED: &'static str = r#"UPDATE "cookies" SET "enabled" = ? WHERE "id" = ?"#;
pub const SQL_SET_COOKIE_LAST_LOGIN: &'static str = r#"UPDATE "cookies" SET "last_login" = ? WHERE "id" = ?"#;
pub const SQL_COOKIES_OF: &'static str = r#"SELECT * FROM "cookies" WHERE "belong" = ?"#;
pub const SQL_ENABLED_COOKIES: &'static str = r#"SELECT* FROM "cookies"  WHERE "enabled" = 1"#;
pub const SQL_ALL_COOKIES: &'static str = r#"SELECT* FROM "cookies""#;
pub const SQL_INTEL_VERSION: &'static str = r#"SELECT * FROM "meta" WHERE "key" = 'intel_v'"#;
pub const SQL_UPDATE_INTEL_VERSION: &'static str = r#"UPDATE "meta" SET "value" = ? WHERE "key" = 'intel_v'"#;
pub const SQL_INSERT_INTEL_VERSION: &'static str = r#"INSERT INTO "meta" VALUES ('intel_v', ?)"#;
pub const SQL_INSERT_HISTORY: &'static str = r#"INSERT INTO "history" ("timestamp", "id", "code", "error") VALUES (?, ?, ?, ?)"#;
pub const SQL_HISTORY_OF: &'static str = r#"SELECT "timestamp", "id", "code", "error" FROM "history" WHERE "id" = ? ORDER BY "entry_id" DESC LIMIT 20"#;
pub const SQL_ALL_HISTORY: &'static str = r#"SELECT "timestamp", "id", "code", "error" FROM "history" ORDER BY "entry_id" DESC LIMIT 40"#;

/// A value bound to a `?` of a statement.
#[derive(Clone, Debug, PartialEq, Eq)]
pub enum Param {
    Integer(i64),
    SmallInteger(i32),
    Text(String),
    Flag(bool),
    OptionalText(Option<String>),
    /// The JSON document of the [`crate::types::VStats`] whose `v` is this text.
    StatsDocument(String),
}

pub enum ParamView {
    Integer(i64),
    SmallInteger(i32),
    Text(Seq<char>),
    Flag(bool),
    OptionalText(Option<Seq<char>>),
    StatsDocument(Seq<char>),
}

impl View for Param {
    type V = ParamView;

    open spec fn view(&self) -> ParamView {
        match self {
            Param::Integer(i) => ParamView::Integer(*i),
            Param::SmallInteger(i) => ParamView::SmallInteger(*i),
            Param::Text(t) => ParamView::Text(t@),
            Param::Flag(b) => ParamView::Flag(*b),
            Param::OptionalText(t) => ParamView::OptionalText(opt_view(*t)),
            Param::StatsDocument(t) => ParamView::StatsDocument(t@),
        }
    }
}

pub open spec fn params_view(ps: Seq<Param>) -> Seq<ParamView> {
    ps.map_values(|p: Param| p@)
}

/// One statement against the database, reads first, then writes.
#[derive(Clone, Debug, PartialEq, Eq)]
pub enum Statement {
    MetaTableExists,
    SchemaVersion,
    CodeByCode { code: String },
    UserById { user: i64 },
    AuthorizedUser { user: i64 },
    CookieById { id: String },
    CookiesOf { belong: i64 },
    EnabledCookies,
    AllCookies,
    IntelVersion,
    HistoryOf { id: String },
    AllHistory,
    CreateSchema,
    InsertVersion,
    CreateHistoryV2,
    CopyHistory,
    DropHistory,
    RenameHistoryV2,
    BumpVersion,
    InsertCode { code: String, message_id: i32 },
    SetCodeFr { code: String, fr: bool },
    InsertUser { user: i64, level: i32 },
    UpdateUserLevel { user: i64, level: i32 },
    UpdateCookieTokens { id: String, csrf: String, session: String },
    InsertCookie { id: String, csrf: String, session: String, belong: i64 },
    SetCookieEnabled { id: String, enabled: bool },
    SetCookieLastLogin { id: String, timestamp: i64 },
    UpdateIntelVersion { v: String },
    InsertIntelVersion { v: String },
    InsertHistory { timestamp: i64, id: String, code: String, error: Option<String> },
}

/// The mathematical value of a [`Statement`].
pub enum StatementView {
    MetaTableExists,
    SchemaVersion,
    CodeByCode { code: Seq<char> },
    UserById { user: i64 },
    AuthorizedUser { user: i64 },
    CookieById { id: Seq<char> },
    CookiesOf { belong: i64 },
    EnabledCookies,
    AllCookies,
    IntelVersion,
    HistoryOf { id: Seq<char> },
    AllHistory,
    CreateSchema,
    InsertVersion,
    CreateHistoryV2,
    CopyHistory,
    DropHistory,
    RenameHistoryV2,
    BumpVersion,
    InsertCode { code: Seq<char>, message_id: i32 },
    SetCodeFr { code: Seq<char>, fr: bool },
    InsertUser { user: i64, level: i32 },
    UpdateUserLevel { user: i64, level: i32 },
    UpdateCookieTokens { id: Seq<char>, csrf: Seq<char>, session: Seq<char> },
    InsertCookie { id: Seq<char>, csrf: Seq<char>, session: Seq<char>, belong: i64 },
    SetCookieEnabled { id: Seq<char>, enabled: bool },
    SetCookieLastLogin { id: Seq<char>, timestamp: i64 },
    UpdateIntelVersion { v: Seq<char> },
    InsertIntelVersion { v: Seq<char> },
    InsertHistory { timestamp: i64, id: Seq<char>, code: Seq<char>, error: Option<Seq<char>> },
}

impl View for Statement {
    type V = StatementView;

    open spec fn view(&self) -> StatementView {
        match self {
            Statement::MetaTableExists => StatementView::MetaTableExists,
            Statement::SchemaVersion => StatementView::SchemaVersion,
            Statement::CodeByCode { code } => StatementView::CodeByCode { code: code@ },
            Statement::UserById { user } => StatementView::UserById { user: *user },
            Statement::AuthorizedUser { user } => StatementView::AuthorizedUser { user: *user },
            Statement::CookieById { id } => StatementView::CookieById { id: id@ },
            Statement::CookiesOf { belong } => StatementView::CookiesOf { belong: *belong },
            Statement::EnabledCookies => StatementView::EnabledCookies,
            Statement::AllCookies => StatementView::AllCookies,
            Statement::IntelVersion => StatementView::IntelVersion,
            Statement::HistoryOf { id } => StatementView::HistoryOf { id: id@ },
            Statement::AllHistory => StatementView::AllHistory,
            Statement::CreateSchema => StatementView::CreateSchema,
            Statement::InsertVersion => StatementView::InsertVersion,
            Statement::CreateHistoryV2 => StatementView::CreateHistoryV2,
            Statement::CopyHistory => StatementView::CopyHistory,
            Statement::DropHistory => StatementView::DropHistory,
            Statement::RenameHistoryV2 => StatementView::RenameHistoryV2,
            Statement::BumpVersion => StatementView::BumpVersion,
            Statement::InsertCode { code, message_id } => StatementView::InsertCode {
                code: code@,
                message_id: *message_id,
            },
            Statement::SetCodeFr { code, fr } => StatementView::SetCodeFr { code: code@, fr: *fr },
            Statement::InsertUser { user, level } => StatementView::InsertUser {
                user: *user,
                level: *level,
            },
            Statement::UpdateUserLevel { user, level } => StatementView::UpdateUserLevel {
                user: *user,
                level: *level,
            },
            Statement::UpdateCookieTokens { id, csrf, session } => StatementView::UpdateCookieTokens {
                id: id@,
                csrf: csrf@,
                session: session@,
            },
            Statement::InsertCookie { id, csrf, session, belong } => StatementView::InsertCookie {
                id: id@,
                csrf: csrf@,
                session: session@,
                belong: *belong,
            },
            Statement::SetCookieEnabled { id, enabled } => StatementView::SetCookieEnabled {
                id: id@,
                enabled: *enabled,
            },
            Statement::SetCookieLastLogin { id, timestamp } => StatementView::SetCookieLastLogin {
                id: id@,
                timestamp: *timestamp,
            },
            Statement::UpdateIntelVersion { v } => StatementView::UpdateIntelVersion { v: v@ },
            Statement::InsertIntelVersion { v } => StatementView::InsertIntelVersion { v: v@ },
            Statement::InsertHistory { timestamp, id, code, error } => StatementView::InsertHistory {
                timestamp: *timestamp,
                id: id@,
                code: code@,
                error: opt_view(*error),
            },
        }
    }
}

impl StatementView {
    /// Whether the statement reads rows rather than changing the database.
    pub open spec fn is_read(self) -> bool {
        match self {
            StatementView::MetaTableExists | StatementView::SchemaVersion
            | StatementView::CodeByCode { .. } | StatementView::UserById { .. }
            | StatementView::AuthorizedUser { .. } | StatementView::CookieById { .. }
            | StatementView::CookiesOf { .. } | StatementView::EnabledCookies
            | StatementView::AllCookies | StatementView::IntelVersion
            | StatementView::HistoryOf { .. } | StatementView::AllHistory => true,
            _ => false,
        }
    }

    /// The SQL text of the statement.
    pub open spec fn sql(self) -> Seq<char> {
        match self {
            StatementView::MetaTableExists => SQL_META_TABLE_EXISTS@,
            StatementView::SchemaVersion => SQL_SCHEMA_VERSION@,
            StatementView::CodeByCode { .. } => SQL_CODE_BY_CODE@,
            StatementView::UserById { .. } => SQL_USER_BY_ID@,
            StatementView::AuthorizedUser { .. } => SQL_AUTHORIZED_USER@,
            StatementView::CookieById { .. } => SQL_COOKIE_BY_ID@,
            StatementView::CookiesOf { .. } => SQL_COOKIES_OF@,
            StatementView::EnabledCookies => SQL_ENABLED_COOKIES@,
            StatementView::AllCookies => SQL_ALL_COOKIES@,
            StatementView::IntelVersion => SQL_INTEL_VERSION@,
            StatementView::HistoryOf { .. } => SQL_HISTORY_OF@,
            StatementView::AllHistory => SQL_ALL_HISTORY@,
            StatementView::CreateSchema => CREATE_STATEMENT@,
            StatementView::InsertVersion => SQL_INSERT_VERSION@,
            StatementView::CreateHistoryV2 => SQL_CREATE_HISTORY_V2@,
            StatementView::CopyHistory => SQL_COPY_HISTORY@,
            StatementView::DropHistory => SQL_DROP_HISTORY@,
            StatementView::RenameHistoryV2 => SQL_RENAME_HISTORY_V2@,
            StatementView::BumpVersion => SQL_BUMP_VERSION@,
            StatementView::InsertCode { .. } => SQL_INSERT_CODE@,
            StatementView::SetCodeFr { .. } => SQL_SET_CODE_FR@,
            StatementView::InsertUser { .. } => SQL_INSERT_USER@,
            StatementView::UpdateUserLevel { .. } => SQL_UPDATE_USER_LEVEL@,
            StatementView::UpdateCookieTokens { .. } => SQL_UPDATE_COOKIE_TOKENS@,
            StatementView::InsertCookie { .. } => SQL_INSERT_COOKIE@,
            StatementView::SetCookieEnabled { .. } => SQL_SET_COOKIE_ENABLED@,
            StatementView::SetCookieLastLogin { .. } => SQL_SET_COOKIE_LAST_LOGIN@,
            StatementView::UpdateIntelVersion { .. } => SQL_UPDATE_INTEL_VERSION@,
            StatementView::InsertIntelVersion { .. } => SQL_INSERT_INTEL_VERSION@,
            StatementView::InsertHistory { .. } => SQL_INSERT_HISTORY@,
        }
    }

    /// The values bound to the `?` placeholders, in order.
    pub open spec fn params(self) -> Seq<ParamView> {
        match self {
            StatementView::CodeByCode { code } => seq![ParamView::Text(code)],
            StatementView::UserById { user } => seq![ParamView::Integer(user)],
            StatementView::AuthorizedUser { user } => seq![ParamView::Integer(user)],
            StatementView::CookieById { id } => seq![ParamView::Text(id)],
            StatementView::CookiesOf { belong } => seq![ParamView::Integer(belong)],
            StatementView::HistoryOf { id } => seq![ParamView::Text(id)],
            StatementView::InsertVersion => seq![ParamView::Text(VERSION@)],
            StatementView::InsertCode { code, message_id } => seq![
                ParamView::Text(code),
                ParamView::SmallInteger(message_id),
            ],
            StatementView::SetCodeFr { code, fr } => seq![ParamView::Flag(fr), ParamView::Text(code)],
            StatementView::InsertUser { user, level } => seq![
                ParamView::Integer(user),
                ParamView::SmallInteger(level),
            ],
            StatementView::UpdateUserLevel { user, level } => seq![
                ParamView::SmallInteger(level),
                ParamView::Integer(user),
            ],
            StatementView::UpdateCookieTokens { id, csrf, session } => seq![
                ParamView::Text(csrf),
                ParamView::Text(session),
                ParamView::Text(id),
            ],
            StatementView::InsertCookie { id, csrf, session, belong } => seq![
                ParamView::Text(id),
                ParamView::Text(csrf),
                ParamView::Text(session),
                ParamView::Integer(belong),
            ],
            StatementView::SetCookieEnabled { id, enabled } => seq![
                ParamView::Flag(enabled),
                ParamView::Text(id),
            ],
            StatementView::SetCookieLastLogin { id, timestamp } => seq![
                ParamView::Integer(timestamp),
                ParamView::Text(id),
            ],
            StatementView::UpdateIntelVersion { v } => seq![ParamView::StatsDocument(v)],
            StatementView::InsertIntelVersion { v } => seq![ParamView::StatsDocument(v)],
            StatementView::InsertHistory { timestamp, id, code, error } => seq![
                ParamView::Integer(timestamp),
                ParamView::Text(id),
                ParamView::Text(code),
                ParamView::OptionalText(error),
            ],
            _ => seq![],
        }
    }
}

impl Statement {
    /// Whether the statement reads rows rather than changing the database.
    pub fn is_read(&self) -> (r: bool)
        ensures
            r == self@.is_read(),
    {
        match self {
            Statement::MetaTableExists | Statement::SchemaVersion | Statement::CodeByCode { .. }
            | Statement::UserById { .. } | Statement::AuthorizedUser { .. }
            | Statement::CookieById { .. } | Statement::CookiesOf { .. }
            | Statement::EnabledCookies | Statement::AllCookies | Statement::IntelVersion
            | Statement::HistoryOf { .. } | Statement::AllHistory => true,
            _ => false,
        }
    }

    /// The SQL text of the statement.
    pub fn sql(&self) -> (r: &'static str)
        ensures
            r@ == self@.sql(),
    {
        match self {
            Statement::MetaTableExists => SQL_META_TABLE_EXISTS,
            Statement::SchemaVersion => SQL_SCHEMA_VERSION,
            Statement::CodeByCode { .. } => SQL_CODE_BY_CODE,
            Statement::UserById { .. } => SQL_USER_BY_ID,
            Statement::AuthorizedUser { .. } => SQL_AUTHORIZED_USER,
            Statement::CookieById { .. } => SQL_COOKIE_BY_ID,
            Statement::CookiesOf { .. } => SQL_COOKIES_OF,
            Statement::EnabledCookies => SQL_ENABLED_COOKIES,
            Statement::AllCookies => SQL_ALL_COOKIES,
            Statement::IntelVersion => SQL_INTEL_VERSION,
            Statement::HistoryOf { .. } => SQL_HISTORY_OF,
            Statement::AllHistory => SQL_ALL_HISTORY,
            Statement::CreateSchema => CREATE_STATEMENT,
            Statement::InsertVersion => SQL_INSERT_VERSION,
            Statement::CreateHistoryV2 => SQL_CREATE_HISTORY_V2,
            Statement::CopyHistory => SQL_COPY_HISTORY,
            Statement::DropHistory => SQL_DROP_HISTORY,
            Statement::RenameHistoryV2 => SQL_RENAME_HISTORY_V2,
            Statement::BumpVersion => SQL_BUMP_VERSION,
            Statement::InsertCode { .. } => SQL_INSERT_CODE,
            Statement::SetCodeFr { .. } => SQL_SET_CODE_FR,
            Statement::InsertUser { .. } => SQL_INSERT_USER,
            Statement::UpdateUserLevel { .. } => SQL_UPDATE_USER_LEVEL,
            Statement::UpdateCookieTokens { .. } => SQL_UPDATE_COOKIE_TOKENS,
            Statement::InsertCookie { .. } => SQL_INSERT_COOKIE,
            Statement::SetCookieEnabled { .. } => SQL_SET_COOKIE_ENABLED,
            Statement::SetCookieLastLogin { .. } => SQL_SET_COOKIE_LAST_LOGIN,
            Statement::UpdateIntelVersion { .. } => SQL_UPDATE_INTEL_VERSION,
            Statement::InsertIntelVersion { .. } => SQL_INSERT_INTEL_VERSION,
            Statement::InsertHistory { .. } => SQL_INSERT_HISTORY,
        }
    }

    /// The values to bind to the `?` placeholders of [`Statement::sql`], in order.
    pub fn params(&self) -> (r: Vec<Param>)
        ensures
            params_view(r@) == self@.params(),
    {
        let r: Vec<Param> = match self {
            Statement::CodeByCode { code } => vec![Param::Text(code.clone())],
            Statement::UserById { user } => vec![Param::Integer(*user)],
            Statement::AuthorizedUser { user } => vec![Param::Integer(*user)],
            Statement::CookieById { id } => vec![Param::Text(id.clone())],
            Statement::CookiesOf { belong } => vec![Param::Integer(*belong)],
            Statement::HistoryOf { id } => vec![Param::Text(id.clone())],
            Statement::InsertVersion => vec![Param::Text(VERSION.to_owned())],
            Statement::InsertCode { code, message_id } => vec![
                Param::Text(code.clone()),
                Param::SmallInteger(*message_id),
            ],
            Statement::SetCodeFr { code, fr } => vec![Param::Flag(*fr), Param::Text(code.clone())],
            Statement::InsertUser { user, level } => vec![
                Param::Integer(*user),
                Param::SmallInteger(*level),
            ],
            Statement::UpdateUserLevel { user, level } => vec![
                Param::SmallInteger(*level),
                Param::Integer(*user),
            ],
            Statement::UpdateCookieTokens { id, csrf, session } => vec![
                Param::Text(csrf.clone()),
                Param::Text(session.clone()),
                Param::Text(id.clone()),
            ],
            Statement::InsertCookie { id, csrf, session, belong } => vec![
                Param::Text(id.clone()),
                Param::Text(csrf.clone()),
                Param::Text(session.clone()),
                Param::Integer(*belong),
            ],
            Statement::SetCookieEnabled { id, enabled } => vec![
                Param::Flag(*enabled),
                Param::Text(id.clone()),
            ],
            Statement::SetCookieLastLogin { id, timestamp } => vec![
                Param::Integer(*timestamp),
                Param::Text(id.clone()),
            ],
            Statement::UpdateIntelVersion { v } => vec![Param::StatsDocument(v.clone())],
            Statement::InsertIntelVersion { v } => vec![Param::StatsDocument(v.clone())],
            Statement::InsertHistory { timestamp, id, code, error } => {
                let e: Option<String> = match error {
                    Some(t) => Some(t.clone()),
                    None => None,
                };
                vec![
                    Param::Integer(*timestamp),
                    Param::Text(id.clone()),
                    Param::Text(code.clone()),
                    Param::OptionalText(e),
                ]
            },
            _ => vec![],
        };
        proof {
            assert(params_view(r@) =~= self@.params());
        }
        r
    }
}

} // verus!
