//! The requests the database task serves, and the decisions it makes while
//! serving one: which statement to run next, what to publish, what to reply.
//!
//! The task itself (the channel it reads, the connection it writes through)
//! runs these decisions: it asks [`Session::start`] for the first action,
//! performs it, hands what came back to [`Session::advance`], and so on until a
//! reply, a silent finish or an abort.
use vstd::prelude::*;
use crate::broadcast::{BroadcastEvent, BroadcastView};
use crate::database::{
    authorization_write, cookie_write, opt_cookie_view, opt_stats_view, stats_write,
};
use crate::database;
use crate::statement::{Statement, StatementView};
use crate::types::{
    opt_view, AccessLevel, CodeRow, CodeRowView, Cookie, CookieView, HistoryRow, HistoryRowView,
    User, VStats,
};

verus! {

/// A request to the database task. Each one but `LogInsert` and `Terminate`
/// is answered with a [`Reply`].
#[derive(Debug, PartialEq, Eq)]
pub enum DatabaseEvent {
    UserAdd { user: i64 },
    UserApprove { user: i64, level: AccessLevel },
    UserRevoke { user: i64 },
    UserQuery { user: i64 },
    CodeQuery { code: String },
    CodeAdd { code: String, message_id: i32 },
    CodeResent { code: String },
    CodeFR { code: String },
    CookieQueryAll(bool),
    CookieQuery(i64),
    CookieQueryID(String),
    CookieToggle { id: String, usable: bool },
    CookieCheckCapacity(String, i64, usize),
    CookieSet { user: i64, id: String, csrf: String, session: String },
    CookieUpdateTimestamp(String),
    VUpdate { v: String },
    LogInsert { id: String, code: String, error: Option<String> },
    LogQuery { id: String },
    VQuery,
    Terminate,
}

/// Whether serving `event` records the time at which it is served.
pub open spec fn records_time(event: DatabaseEvent) -> bool {
    event is CookieUpdateTimestamp || event is LogInsert
}

impl DatabaseEvent {
    /// Whether serving the event records the time at which it is served, so
    /// that the clock must be read before [`Session::start`].
    pub fn needs_clock(&self) -> (r: bool)
        ensures
            r == records_time(*self),
    {
        match self {
            DatabaseEvent::CookieUpdateTimestamp(_) | DatabaseEvent::LogInsert { .. } => true,
            _ => false,
        }
    }

    /// Whether the event stops the task rather than being served.
    pub fn is_terminate(&self) -> (r: bool)
        ensures
            r == (*self is Terminate),
    {
        match self {
            DatabaseEvent::Terminate => true,
            _ => false,
        }
    }
}

/// What the database returned for the last action.
#[derive(Debug, PartialEq, Eq)]
pub enum Answer {
    /// A write went through, or an event was published.
    Done,
    /// The database refused the statement.
    Failed,
    /// Whether the query returned a row.
    Flag(bool),
    Version(Option<String>),
    Code(Option<CodeRow>),
    User(Option<User>),
    Cookie(Option<Cookie>),
    Cookies(Vec<Cookie>),
    History(Vec<HistoryRow>),
    Stats(Option<VStats>),
}

pub enum AnswerView {
    Done,
    Failed,
    Flag(bool),
    Version(Option<Seq<char>>),
    Code(Option<CodeRowView>),
    User(Option<User>),
    Cookie(Option<CookieView>),
    Cookies(Seq<CookieView>),
    History(Seq<HistoryRowView>),
    Stats(Option<Seq<char>>),
}

pub open spec fn opt_code_view(c: Option<CodeRow>) -> Option<CodeRowView> {
    match c {
        Some(k) => Some(k@),
        None => None,
    }
}

pub open spec fn cookies_view(v: Seq<Cookie>) -> Seq<CookieView> {
    v.map_values(|c: Cookie| c@)
}

pub open spec fn history_view(v: Seq<HistoryRow>) -> Seq<HistoryRowView> {
    v.map_values(|h: HistoryRow| h@)
}

impl View for Answer {
    type V = AnswerView;

    open spec fn view(&self) -> AnswerView {
        match self {
            Answer::Done => AnswerView::Done,
            Answer::Failed => AnswerView::Failed,
            Answer::Flag(b) => AnswerView::Flag(*b),
            Answer::Version(v) => AnswerView::Version(opt_view(*v)),
            Answer::Code(c) => AnswerView::Code(opt_code_view(*c)),
            Answer::User(u) => AnswerView::User(*u),
            Answer::Cookie(c) => AnswerView::Cookie(opt_cookie_view(*c)),
            Answer::Cookies(v) => AnswerView::Cookies(cookies_view(v@)),
            Answer::History(v) => AnswerView::History(history_view(v@)),
            Answer::Stats(s) => AnswerView::Stats(opt_stats_view(*s)),
        }
    }
}

/// What the requester of an event receives.
#[derive(Debug, PartialEq, Eq)]
pub enum Reply {
    Unit,
    Flag(bool),
    Code(Option<CodeRow>),
    User(Option<User>),
    Cookie(Option<Cookie>),
    Cookies(Vec<Cookie>),
    History(Vec<HistoryRow>),
    Stats(Option<VStats>),
}

pub enum ReplyView {
    Unit,
    Flag(bool),
    Code(Option<CodeRowView>),
    User(Option<User>),
    Cookie(Option<CookieView>),
    Cookies(Seq<CookieView>),
    History(Seq<HistoryRowView>),
    Stats(Option<Seq<char>>),
}

impl View for Reply {
    type V = ReplyView;

    open spec fn view(&self) -> ReplyView {
        match self {
            Reply::Unit => ReplyView::Unit,
            Reply::Flag(b) => ReplyView::Flag(*b),
            Reply::Code(c) => ReplyView::Code(opt_code_view(*c)),
            Reply::User(u) => ReplyView::User(*u),
            Reply::Cookie(c) => ReplyView::Cookie(opt_cookie_view(*c)),
            Reply::Cookies(v) => ReplyView::Cookies(cookies_view(v@)),
            Reply::History(v) => ReplyView::History(history_view(v@)),
            Reply::Stats(s) => ReplyView::Stats(opt_stats_view(*s)),
        }
    }
}

/// What the task does next.
#[derive(Debug, PartialEq, Eq)]
pub enum Action {
    /// Run the statement and hand back what it returned.
    Run(Statement),
    /// Send the event to the subscribers, then hand back `Answer::Done`.
    Publish(BroadcastEvent),
    /// Send the reply to the requester; the event is served.
    Respond(Reply),
    /// The event is served and nobody waits for a reply.
    Finish,
    /// The database refused a statement: stop serving with its error.
    Abort,
}

pub enum ActionView {
    Run(StatementView),
    Publish(BroadcastView),
    Respond(ReplyView),
    Finish,
    Abort,
}

impl View for Action {
    type V = ActionView;

    open spec fn view(&self) -> ActionView {
        match self {
            Action::Run(s) => ActionView::Run(s@),
            Action::Publish(e) => ActionView::Publish(e@),
            Action::Respond(r) => ActionView::Respond(r@),
            Action::Finish => ActionView::Finish,
            Action::Abort => ActionView::Abort,
        }
    }
}

/// The stage of a session that is over.
pub const FINISHED: u8 = 255;

/// An event being served, and how far.
pub struct Session {
    pub event: DatabaseEvent,
    pub stage: u8,
}

/// The first action for `event`, with `now` the seconds since the epoch at
/// which it is served.
pub open spec fn first_action(event: DatabaseEvent, now: u64) -> ActionView {
    match event {
        DatabaseEvent::UserAdd { user } => ActionView::Run(StatementView::UserById { user }),
        DatabaseEvent::UserApprove { user, .. } => ActionView::Run(StatementView::UserById { user }),
        DatabaseEvent::UserRevoke { user } => ActionView::Run(StatementView::UserById { user }),
        DatabaseEvent::UserQuery { user } => ActionView::Run(StatementView::UserById { user }),
        DatabaseEvent::CodeQuery { code } => ActionView::Run(
            StatementView::CodeByCode { code: code@ },
        ),
        DatabaseEvent::CodeAdd { code, message_id } => ActionView::Run(
            StatementView::InsertCode { code: code@, message_id },
        ),
        DatabaseEvent::CodeResent { code } => ActionView::Publish(BroadcastView::NewCode(code@)),
        DatabaseEvent::CodeFR { code } => ActionView::Run(
            StatementView::SetCodeFr { code: code@, fr: true },
        ),
        DatabaseEvent::CookieQueryAll(enabled_only) => ActionView::Run(
            if enabled_only {
                StatementView::EnabledCookies
            } else {
                StatementView::AllCookies
            },
        ),
        DatabaseEvent::CookieQuery(id) => ActionView::Run(StatementView::CookiesOf { belong: id }),
        DatabaseEvent::CookieQueryID(id) => ActionView::Run(StatementView::CookieById { id: id@ }),
        DatabaseEvent::CookieToggle { id, usable } => ActionView::Run(
            StatementView::SetCookieEnabled { id: id@, enabled: usable },
        ),
        DatabaseEvent::CookieCheckCapacity(codename, _, _) => ActionView::Run(
            StatementView::CookieById { id: codename@ },
        ),
        DatabaseEvent::CookieSet { id, .. } => ActionView::Run(StatementView::CookieById { id: id@ }),
        DatabaseEvent::CookieUpdateTimestamp(id) => ActionView::Run(
            StatementView::SetCookieLastLogin { id: id@, timestamp: now as i64 },
        ),
        DatabaseEvent::VUpdate { .. } => ActionView::Run(StatementView::IntelVersion),
        DatabaseEvent::LogInsert { id, code, error } => ActionView::Run(
            StatementView::InsertHistory {
                timestamp: now as i64,
                id: id@,
                code: code@,
                error: opt_view(error),
            },
        ),
        DatabaseEvent::LogQuery { id } => ActionView::Run(
            if id@.len() == 0 {
                StatementView::AllHistory
            } else {
                StatementView::HistoryOf { id: id@ }
            },
        ),
        DatabaseEvent::VQuery => ActionView::Run(StatementView::IntelVersion),
        DatabaseEvent::Terminate => ActionView::Finish,
    }
}

pub open spec fn respond(r: ReplyView) -> (u8, ActionView) {
    (FINISHED, ActionView::Respond(r))
}

pub open spec fn abort() -> (u8, ActionView) {
    (FINISHED, ActionView::Abort)
}

/// Bringing `user` to `level`: after the stored row comes back, the write it
/// calls for, if any, then the empty reply.
pub open spec fn authorization_step(user: i64, level: AccessLevel, stage: u8, a: AnswerView) -> (
    u8,
    ActionView,
) {
    if stage == 0 {
        match a {
            AnswerView::User(current) => match authorization_write(user, level, current) {
                Some(w) => (1, ActionView::Run(w)),
                None => respond(ReplyView::Unit),
            },
            _ => abort(),
        }
    } else {
        match a {
            AnswerView::Done => respond(ReplyView::Unit),
            _ => abort(),
        }
    }
}

/// The next stage and action of serving `event` at `stage`, once the last
/// action returned `a`. A refusal by the database aborts; an answer of a kind
/// the last action cannot return aborts too.
pub open spec fn step(event: DatabaseEvent, stage: u8, a: AnswerView) -> (u8, ActionView) {
    if stage == FINISHED {
        (FINISHED, ActionView::Finish)
    } else if a is Failed {
        abort()
    } else {
        match event {
            DatabaseEvent::UserAdd { user } => if stage == 0 {
                match a {
                    AnswerView::User(None) => (
                        1,
                        ActionView::Run(
                            StatementView::InsertUser { user, level: AccessLevel::NoAccess.code() },
                        ),
                    ),
                    AnswerView::User(Some(_)) => respond(ReplyView::Flag(false)),
                    _ => abort(),
                }
            } else {
                match a {
                    AnswerView::Done => respond(ReplyView::Flag(true)),
                    _ => abort(),
                }
            },
            DatabaseEvent::UserApprove { user, level } => authorization_step(user, level, stage, a),
            DatabaseEvent::UserRevoke { user } => authorization_step(
                user,
                AccessLevel::NoAccess,
                stage,
                a,
            ),
            DatabaseEvent::UserQuery { .. } => match a {
                AnswerView::User(u) => respond(ReplyView::User(u)),
                _ => abort(),
            },
            DatabaseEvent::CodeQuery { .. } => match a {
                AnswerView::Code(c) => respond(ReplyView::Code(c)),
                _ => abort(),
            },
            DatabaseEvent::CodeAdd { code, .. } => if stage == 0 {
                match a {
                    AnswerView::Done => (1, ActionView::Publish(BroadcastView::NewCode(code@))),
                    _ => abort(),
                }
            } else {
                match a {
                    AnswerView::Done => respond(ReplyView::Unit),
                    _ => abort(),
                }
            },
            DatabaseEvent::CodeResent { .. } => match a {
                AnswerView::Done => respond(ReplyView::Unit),
                _ => abort(),
            },
            DatabaseEvent::CodeFR { code } => if stage == 0 {
                match a {
                    AnswerView::Done => (1, ActionView::Run(StatementView::CodeByCode { code: code@ })),
                    _ => abort(),
                }
            } else {
                match a {
                    AnswerView::Code(c) => respond(ReplyView::Code(c)),
                    _ => abort(),
                }
            },
            DatabaseEvent::CookieQueryAll(_) => match a {
                AnswerView::Cookies(v) => respond(ReplyView::Cookies(v)),
                _ => abort(),
            },
            DatabaseEvent::CookieQuery(_) => match a {
                AnswerView::Cookies(v) => respond(ReplyView::Cookies(v)),
                _ => abort(),
            },
            DatabaseEvent::CookieQueryID(_) => match a {
                AnswerView::Cookie(c) => respond(ReplyView::Cookie(c)),
                _ => abort(),
            },
            DatabaseEvent::CookieToggle { .. } => match a {
                AnswerView::Done => respond(ReplyView::Unit),
                _ => abort(),
            },
            DatabaseEvent::CookieCheckCapacity(_, id, capacity) => if stage == 0 {
                match a {
                    AnswerView::Cookie(Some(_)) => respond(ReplyView::Flag(true)),
                    AnswerView::Cookie(None) => (1, ActionView::Run(StatementView::CookiesOf { belong: id })),
                    _ => abort(),
                }
            } else {
                match a {
                    AnswerView::Cookies(v) => respond(ReplyView::Flag(v.len() <= capacity)),
                    _ => abort(),
                }
            },
            DatabaseEvent::CookieSet { user, id, csrf, session } => if stage == 0 {
                match a {
                    AnswerView::Cookie(existing) => {
                        let (accepted, w) = cookie_write(user, csrf@, session@, id@, existing);
                        match w {
                            Some(w) => (1, ActionView::Run(w)),
                            None => respond(ReplyView::Flag(accepted)),
                        }
                    },
                    _ => abort(),
                }
            } else {
                match a {
                    AnswerView::Done => respond(ReplyView::Flag(true)),
                    _ => abort(),
                }
            },
            DatabaseEvent::CookieUpdateTimestamp(_) => match a {
                AnswerView::Done => respond(ReplyView::Unit),
                _ => abort(),
            },
            DatabaseEvent::VUpdate { v } => if stage == 0 {
                match a {
                    AnswerView::Stats(stored) => match stats_write(v@, stored) {
                        Some(w) => (1, ActionView::Run(w)),
                        None => respond(ReplyView::Unit),
                    },
                    _ => abort(),
                }
            } else {
                match a {
                    AnswerView::Done => respond(ReplyView::Unit),
                    _ => abort(),
                }
            },
            DatabaseEvent::LogInsert { .. } => match a {
                AnswerView::Done => (FINISHED, ActionView::Finish),
                _ => abort(),
            },
            DatabaseEvent::LogQuery { .. } => match a {
                AnswerView::History(h) => respond(ReplyView::History(h)),
                _ => abort(),
            },
            DatabaseEvent::VQuery => match a {
                AnswerView::Stats(s) => respond(ReplyView::Stats(s)),
                _ => abort(),
            },
            DatabaseEvent::Terminate => (FINISHED, ActionView::Finish),
        }
    }
}

impl Session {
    /// The session after the last action returned `a`, and the next action.
    pub open spec fn next(self, a: AnswerView) -> (Session, ActionView) {
        let (stage, action) = step(self.event, self.stage, a);
        (Session { event: self.event, stage }, action)
    }

    /// Starts serving `event` at `now` seconds since the epoch; only the
    /// events for which [`DatabaseEvent::needs_clock`] holds record `now`.
    pub fn start(event: DatabaseEvent, now: u64) -> (r: (Session, Action))
        requires
            !(event is Terminate),
        ensures
            r.0.event == event,
            r.0.stage == 0,
            r.1@ == first_action(event, now),
    {
        let action = match &event {
            DatabaseEvent::UserAdd { user } => Action::Run(database::query_user(*user)),
            DatabaseEvent::UserApprove { user, .. } => Action::Run(database::query_user(*user)),
            DatabaseEvent::UserRevoke { user } => Action::Run(database::query_user(*user)),
            DatabaseEvent::UserQuery { user } => Action::Run(database::query_user(*user)),
            DatabaseEvent::CodeQuery { code } => Action::Run(database::query_code(code.as_str())),
            DatabaseEvent::CodeAdd { code, message_id } => Action::Run(
                database::insert_code(code.as_str(), *message_id),
            ),
            DatabaseEvent::CodeResent { code } => Action::Publish(
                BroadcastEvent::new_code(code.as_str()),
            ),
            DatabaseEvent::CodeFR { code } => Action::Run(database::set_code_fr(code.as_str(), true)),
            DatabaseEvent::CookieQueryAll(enabled_only) => Action::Run(
                if *enabled_only {
                    database::cookie_query_all_enabled()
                } else {
                    database::cookie_query_all()
                },
            ),
            DatabaseEvent::CookieQuery(id) => Action::Run(database::cookie_query_user(*id)),
            DatabaseEvent::CookieQueryID(id) => Action::Run(database::cookie_query(id.as_str())),
            DatabaseEvent::CookieToggle { id, usable } => Action::Run(
                database::cookie_usable(id.as_str(), *usable),
            ),
            DatabaseEvent::CookieCheckCapacity(codename, _, _) => Action::Run(
                database::cookie_query(codename.as_str()),
            ),
            DatabaseEvent::CookieSet { id, .. } => Action::Run(database::cookie_query(id.as_str())),
            DatabaseEvent::CookieUpdateTimestamp(id) => Action::Run(
                database::cookie_update_timestamp(id.as_str(), now),
            ),
            DatabaseEvent::VUpdate { .. } => Action::Run(database::v_query()),
            DatabaseEvent::LogInsert { id, code, error } => {
                let e: Option<String> = match error {
                    Some(t) => Some(t.clone()),
                    None => None,
                };
                Action::Run(database::log_add(id.as_str(), code.as_str(), e, now))
            },
            DatabaseEvent::LogQuery { id } => Action::Run(
                if id.as_str().is_empty() {
                    database::log_query_all()
                } else {
                    database::log_query(id.as_str())
                },
            ),
            DatabaseEvent::VQuery => Action::Run(database::v_query()),
            DatabaseEvent::Terminate => Action::Finish,
        };
        (Session { event, stage: 0 }, action)
    }

    /// Continues once the last action returned `answer`.
    pub fn advance(self, answer: Answer) -> (r: (Session, Action))
        ensures
            r.0 == self.next(answer@).0,
            r.1@ == self.next(answer@).1,
    {
        let (stage, action) = next_step(&self.event, self.stage, answer);
        (Session { event: self.event, stage }, action)
    }
}

fn respond_with(r: Reply) -> (o: (u8, Action))
    ensures
        o.0 == FINISHED,
        o.1@ == ActionView::Respond(r@),
{
    (FINISHED, Action::Respond(r))
}

fn abort_now() -> (o: (u8, Action))
    ensures
        o.0 == abort().0,
        o.1@ == abort().1,
{
    (FINISHED, Action::Abort)
}

fn authorization_next(user: i64, level: AccessLevel, stage: u8, answer: Answer) -> (o: (u8, Action))
    requires
        stage != FINISHED,
        !(answer is Failed),
    ensures
        o.0 == authorization_step(user, level, stage, answer@).0,
        o.1@ == authorization_step(user, level, stage, answer@).1,
{
    if stage == 0 {
        match answer {
            Answer::User(current) => match database::set_authorized_status(user, level, &current) {
                Some(w) => (1, Action::Run(w)),
                None => respond_with(Reply::Unit),
            },
            _ => abort_now(),
        }
    } else {
        match answer {
            Answer::Done => respond_with(Reply::Unit),
            _ => abort_now(),
        }
    }
}

/// The executable form of [`step`].
fn next_step(event: &DatabaseEvent, stage: u8, answer: Answer) -> (o: (u8, Action))
    ensures
        o.0 == step(*event, stage, answer@).0,
        o.1@ == step(*event, stage, answer@).1,
{
    if stage == FINISHED {
        return (FINISHED, Action::Finish);
    }
    if let Answer::Failed = answer {
        return abort_now();
    }
    match event {
        DatabaseEvent::UserAdd { user } => {
            if stage == 0 {
                match answer {
                    Answer::User(None) => (
                        1,
                        Action::Run(database::insert_user(*user, AccessLevel::NoAccess)),
                    ),
                    Answer::User(Some(_)) => respond_with(Reply::Flag(false)),
                    _ => abort_now(),
                }
            } else {
                match answer {
                    Answer::Done => respond_with(Reply::Flag(true)),
                    _ => abort_now(),
                }
            }
        },
        DatabaseEvent::UserApprove { user, level } => authorization_next(*user, *level, stage, answer),
        DatabaseEvent::UserRevoke { user } => authorization_next(
            *user,
            AccessLevel::NoAccess,
            stage,
            answer,
        ),
        DatabaseEvent::UserQuery { .. } => match answer {
            Answer::User(u) => respond_with(Reply::User(u)),
            _ => abort_now(),
        },
        DatabaseEvent::CodeQuery { .. } => match answer {
            Answer::Code(c) => respond_with(Reply::Code(c)),
            _ => abort_now(),
        },
        DatabaseEvent::CodeAdd { code, .. } => {
            if stage == 0 {
                match answer {
                    Answer::Done => (1, Action::Publish(BroadcastEvent::new_code(code.as_str()))),
                    _ => abort_now(),
                }
            } else {
                match answer {
                    Answer::Done => respond_with(Reply::Unit),
                    _ => abort_now(),
                }
            }
        },
        DatabaseEvent::CodeResent { .. } => match answer {
            Answer::Done => respond_with(Reply::Unit),
            _ => abort_now(),
        },
        DatabaseEvent::CodeFR { code } => {
            if stage == 0 {
                match answer {
                    Answer::Done => (1, Action::Run(database::query_code(code.as_str()))),
                    _ => abort_now(),
                }
            } else {
                match answer {
                    Answer::Code(c) => respond_with(Reply::Code(c)),
                    _ => abort_now(),
                }
            }
        },
        DatabaseEvent::CookieQueryAll(_) => match answer {
            Answer::Cookies(v) => respond_with(Reply::Cookies(v)),
            _ => abort_now(),
        },
        DatabaseEvent::CookieQuery(_) => match answer {
            Answer::Cookies(v) => respond_with(Reply::Cookies(v)),
            _ => abort_now(),
        },
        DatabaseEvent::CookieQueryID(_) => match answer {
            Answer::Cookie(c) => respond_with(Reply::Cookie(c)),
            _ => abort_now(),
        },
        DatabaseEvent::CookieToggle { .. } => match answer {
            Answer::Done => respond_with(Reply::Unit),
            _ => abort_now(),
        },
        DatabaseEvent::CookieCheckCapacity(_, id, capacity) => {
            if stage == 0 {
                match answer {
                    Answer::Cookie(Some(_)) => respond_with(Reply::Flag(true)),
                    Answer::Cookie(None) => (1, Action::Run(database::cookie_query_user(*id))),
                    _ => abort_now(),
                }
            } else {
                match answer {
                    Answer::Cookies(v) => respond_with(Reply::Flag(v.len() <= *capacity)),
                    _ => abort_now(),
                }
            }
        },
        DatabaseEvent::CookieSet { user, id, csrf, session } => {
            if stage == 0 {
                match answer {
                    Answer::Cookie(existing) => {
                        let (accepted, w) = database::cookie_set(
                            *user,
                            csrf.as_str(),
                            session.as_str(),
                            id.as_str(),
                            &existing,
                        );
                        match w {
                            Some(w) => (1, Action::Run(w)),
                            None => respond_with(Reply::Flag(accepted)),
                        }
                    },
                    _ => abort_now(),
                }
            } else {
                match answer {
                    Answer::Done => respond_with(Reply::Flag(true)),
                    _ => abort_now(),
                }
            }
        },
        DatabaseEvent::CookieUpdateTimestamp(_) => match answer {
            Answer::Done => respond_with(Reply::Unit),
            _ => abort_now(),
        },
        DatabaseEvent::VUpdate { v } => {
            if stage == 0 {
                match answer {
                    Answer::Stats(stored) => match database::v_update(v.clone(), &stored) {
                        Some(w) => (1, Action::Run(w)),
                        None => respond_with(Reply::Unit),
                    },
                    _ => abort_now(),
                }
            } else {
                match answer {
                    Answer::Done => respond_with(Reply::Unit),
                    _ => abort_now(),
                }
            }
        },
        DatabaseEvent::LogInsert { .. } => match answer {
            Answer::Done => (FINISHED, Action::Finish),
            _ => abort_now(),
        },
        DatabaseEvent::LogQuery { .. } => match answer {
            Answer::History(h) => respond_with(Reply::History(h)),
            _ => abort_now(),
        },
        DatabaseEvent::VQuery => match answer {
            Answer::Stats(s) => respond_with(Reply::Stats(s)),
            _ => abort_now(),
        },
        DatabaseEvent::Terminate => (FINISHED, Action::Finish),
    }
}

} // verus!
