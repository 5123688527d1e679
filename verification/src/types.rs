//! The rows that the tables hold, and the access levels of users.
use vstd::prelude::*;

verus! {

/// How far a user is trusted. `NoAccess` is what a user has before an
/// administrator approves them, or after a revocation.
#[derive(Clone, Copy, Debug, PartialEq, Eq)]
pub enum AccessLevel {
    NoAccess,
    Cookie,
    Send,
    All,
}

impl AccessLevel {
    /// The integer under which the level is stored in the `authorized` column.
    pub open spec fn code(self) -> i32 {
        match self {
            AccessLevel::NoAccess => 0,
            AccessLevel::Cookie => 1,
            AccessLevel::Send => 2,
            AccessLevel::All => 3,
        }
    }

    /// The stored form of the level.
    pub fn i32(&self) -> (r: i32)
        ensures
            r == self.code(),
    {
        match self {
            AccessLevel::NoAccess => 0,
            AccessLevel::Cookie => 1,
            AccessLevel::Send => 2,
            AccessLevel::All => 3,
        }
    }
}

/// A row of `codes`: a passcode, the message that announced it, and whether it
/// was reported as fully redeemed.
#[derive(Clone, Debug, PartialEq, Eq)]
pub struct CodeRow {
    pub code: String,
    pub message_id: i32,
    pub fr: bool,
}

pub struct CodeRowView {
    pub code: Seq<char>,
    pub message_id: i32,
    pub fr: bool,
}

impl View for CodeRow {
    type V = CodeRowView;

    open spec fn view(&self) -> CodeRowView {
        CodeRowView { code: self.code@, message_id: self.message_id, fr: self.fr }
    }
}

/// A row of `users`: a Telegram user and the stored access level.
#[derive(Clone, Copy, Debug, PartialEq, Eq)]
pub struct User {
    pub id: i64,
    pub authorized: i32,
}

impl User {
    pub fn authorized(&self) -> (r: i32)
        ensures
            r == self.authorized,
    {
        self.authorized
    }
}

/// A row of `cookies`: the session of one Intel account and the user it belongs to.
#[derive(Clone, Debug, PartialEq, Eq)]
pub struct Cookie {
    pub id: String,
    pub csrf_token: String,
    pub session_id: String,
    pub last_login: i64,
    pub belong: i64,
    pub enabled: bool,
}

pub struct CookieView {
    pub id: Seq<char>,
    pub csrf_token: Seq<char>,
    pub session_id: Seq<char>,
    pub last_login: i64,
    pub belong: i64,
    pub enabled: bool,
}

impl View for Cookie {
    type V = CookieView;

    open spec fn view(&self) -> CookieView {
        CookieView {
            id: self.id@,
            csrf_token: self.csrf_token@,
            session_id: self.session_id@,
            last_login: self.last_login,
            belong: self.belong,
            enabled: self.enabled,
        }
    }
}

impl Cookie {
    pub fn belong(&self) -> (r: i64)
        ensures
            r == self.belong,
    {
        self.belong
    }
}

/// A row of `history`: one redemption attempt of a passcode with one account.
#[derive(Clone, Debug, PartialEq, Eq)]
pub struct HistoryRow {
    pub timestamp: i64,
    pub id: String,
    pub code: String,
    pub error: Option<String>,
}

pub struct HistoryRowView {
    pub timestamp: i64,
    pub id: Seq<char>,
    pub code: Seq<char>,
    pub error: Option<Seq<char>>,
}

pub open spec fn opt_view(s: Option<String>) -> Option<Seq<char>> {
    match s {
        Some(t) => Some(t@),
        None => None,
    }
}

impl View for HistoryRow {
    type V = HistoryRowView;

    open spec fn view(&self) -> HistoryRowView {
        HistoryRowView {
            timestamp: self.timestamp,
            id: self.id@,
            code: self.code@,
            error: opt_view(self.error),
        }
    }
}

/// A row of `meta`.
#[derive(Clone, Debug, PartialEq, Eq)]
pub struct MetaRow {
    pub key: String,
    pub value: String,
}

impl MetaRow {
    pub fn value(&self) -> (r: &str)
        ensures
            r@ == self.value@,
    {
        self.value.as_str()
    }
}

/// The Intel client version recorded under the `intel_v` key of `meta`.
#[derive(Clone, Debug, PartialEq, Eq)]
pub struct VStats {
    pub v: String,
}

impl View for VStats {
    type V = Seq<char>;

    open spec fn view(&self) -> Seq<char> {
        self.v@
    }
}

impl VStats {
    pub fn new(v: String) -> (r: Self)
        ensures
            r@ == v@,
    {
        VStats { v }
    }

    pub fn v(&self) -> (r: &str)
        ensures
            r@ == self.v@,
    {
        self.v.as_str()
    }
}

} // verus!
