use passcode_forwarder::broadcast::BroadcastEvent;
use passcode_forwarder::session::{Action, Answer, DatabaseEvent, Reply, Session};
use passcode_forwarder::startup::Startup;
use passcode_forwarder::statement::Statement;
use passcode_forwarder::types::{AccessLevel, CodeRow, Cookie, HistoryRow, User, VStats};

fn cookie(id: &str, belong: i64) -> Cookie {
    Cookie {
        id: id.to_string(),
        csrf_token: "c".to_string(),
        session_id: "s".to_string(),
        last_login: 0,
        belong,
        enabled: true,
    }
}

/// Serves `event`, answering each action with the next of `answers`, and
/// returns every action in order.
fn serve(event: DatabaseEvent, answers: Vec<Answer>) -> Vec<Action> {
    let (mut session, first) = Session::start(event, 1_700_000_000);
    let mut actions = vec![first];
    for answer in answers {
        let (next, action) = session.advance(answer);
        session = next;
        actions.push(action);
    }
    actions
}

#[test]
fn user_add_inserts_unknown_users() {
    let actions = serve(DatabaseEvent::UserAdd { user: 7 }, vec![Answer::User(None), Answer::Done]);
    assert_eq!(
        actions,
        vec![
            Action::Run(Statement::UserById { user: 7 }),
            Action::Run(Statement::InsertUser { user: 7, level: 0 }),
            Action::Respond(Reply::Flag(true)),
        ]
    );
}

#[test]
fn user_add_keeps_known_users() {
    let actions = serve(
        DatabaseEvent::UserAdd { user: 7 },
        vec![Answer::User(Some(User { id: 7, authorized: 3 }))],
    );
    assert_eq!(actions[1], Action::Respond(Reply::Flag(false)));
}

#[test]
fn approve_updates_a_different_level() {
    let actions = serve(
        DatabaseEvent::UserApprove { user: 7, level: AccessLevel::Send },
        vec![Answer::User(Some(User { id: 7, authorized: 0 })), Answer::Done],
    );
    assert_eq!(actions[1], Action::Run(Statement::UpdateUserLevel { user: 7, level: 2 }));
    assert_eq!(actions[2], Action::Respond(Reply::Unit));
}

#[test]
fn approve_same_level_writes_nothing() {
    let actions = serve(
        DatabaseEvent::UserApprove { user: 7, level: AccessLevel::Send },
        vec![Answer::User(Some(User { id: 7, authorized: 2 }))],
    );
    assert_eq!(actions[1], Action::Respond(Reply::Unit));
}

#[test]
fn revoke_stores_no_access() {
    let actions = serve(DatabaseEvent::UserRevoke { user: 9 }, vec![Answer::User(None), Answer::Done]);
    assert_eq!(actions[1], Action::Run(Statement::InsertUser { user: 9, level: 0 }));
    assert_eq!(actions[2], Action::Respond(Reply::Unit));
}

#[test]
fn user_query_forwards_the_row() {
    let row = Some(User { id: 1, authorized: 1 });
    let actions = serve(DatabaseEvent::UserQuery { user: 1 }, vec![Answer::User(row)]);
    assert_eq!(actions[1], Action::Respond(Reply::User(row)));
}

#[test]
fn code_add_inserts_then_announces() {
    let actions = serve(
        DatabaseEvent::CodeAdd { code: "XYZ".to_string(), message_id: 12 },
        vec![Answer::Done, Answer::Done],
    );
    assert_eq!(
        actions,
        vec![
            Action::Run(Statement::InsertCode { code: "XYZ".to_string(), message_id: 12 }),
            Action::Publish(BroadcastEvent::NewCode("XYZ".to_string())),
            Action::Respond(Reply::Unit),
        ]
    );
}

#[test]
fn code_add_refused_announces_nothing() {
    let actions = serve(
        DatabaseEvent::CodeAdd { code: "XYZ".to_string(), message_id: 12 },
        vec![Answer::Failed],
    );
    assert_eq!(actions[1], Action::Abort);
}

#[test]
fn code_resent_announces() {
    let actions = serve(DatabaseEvent::CodeResent { code: "Q".to_string() }, vec![Answer::Done]);
    assert_eq!(actions[0], Action::Publish(BroadcastEvent::NewCode("Q".to_string())));
    assert_eq!(actions[1], Action::Respond(Reply::Unit));
}

#[test]
fn code_fr_marks_then_reads() {
    let row = CodeRow { code: "Q".to_string(), message_id: 3, fr: true };
    let actions = serve(
        DatabaseEvent::CodeFR { code: "Q".to_string() },
        vec![Answer::Done, Answer::Code(Some(row.clone()))],
    );
    assert_eq!(actions[0], Action::Run(Statement::SetCodeFr { code: "Q".to_string(), fr: true }));
    assert_eq!(actions[1], Action::Run(Statement::CodeByCode { code: "Q".to_string() }));
    assert_eq!(actions[2], Action::Respond(Reply::Code(Some(row))));
}

#[test]
fn cookie_query_all_picks_the_query() {
    assert_eq!(serve(DatabaseEvent::CookieQueryAll(true), vec![])[0], Action::Run(Statement::EnabledCookies));
    let rows = vec![cookie("a", 1), cookie("b", 2)];
    let actions = serve(DatabaseEvent::CookieQueryAll(false), vec![Answer::Cookies(rows.clone())]);
    assert_eq!(actions[0], Action::Run(Statement::AllCookies));
    assert_eq!(actions[1], Action::Respond(Reply::Cookies(rows)));
}

#[test]
fn cookie_query_by_owner_and_id() {
    assert_eq!(serve(DatabaseEvent::CookieQuery(4), vec![])[0], Action::Run(Statement::CookiesOf { belong: 4 }));
    let actions = serve(DatabaseEvent::CookieQueryID("a".to_string()), vec![Answer::Cookie(None)]);
    assert_eq!(actions[0], Action::Run(Statement::CookieById { id: "a".to_string() }));
    assert_eq!(actions[1], Action::Respond(Reply::Cookie(None)));
}

#[test]
fn capacity_known_account_is_accepted_without_counting() {
    let actions = serve(
        DatabaseEvent::CookieCheckCapacity("a".to_string(), 4, 0),
        vec![Answer::Cookie(Some(cookie("a", 4)))],
    );
    assert_eq!(actions.len(), 2);
    assert_eq!(actions[1], Action::Respond(Reply::Flag(true)));
}

#[test]
fn capacity_counts_the_accounts_of_the_owner() {
    let actions = serve(
        DatabaseEvent::CookieCheckCapacity("new".to_string(), 4, 2),
        vec![Answer::Cookie(None), Answer::Cookies(vec![cookie("a", 4), cookie("b", 4)])],
    );
    assert_eq!(actions[1], Action::Run(Statement::CookiesOf { belong: 4 }));
    assert_eq!(actions[2], Action::Respond(Reply::Flag(true)));
    let full = serve(
        DatabaseEvent::CookieCheckCapacity("new".to_string(), 4, 1),
        vec![Answer::Cookie(None), Answer::Cookies(vec![cookie("a", 4), cookie("b", 4)])],
    );
    assert_eq!(full[2], Action::Respond(Reply::Flag(false)));
}

#[test]
fn cookie_set_flows() {
    let event = || DatabaseEvent::CookieSet {
        user: 1,
        id: "a".to_string(),
        csrf: "c2".to_string(),
        session: "s2".to_string(),
    };
    let refused = serve(event(), vec![Answer::Cookie(Some(cookie("a", 2)))]);
    assert_eq!(refused[1], Action::Respond(Reply::Flag(false)));
    let updated = serve(event(), vec![Answer::Cookie(Some(cookie("a", 1))), Answer::Done]);
    assert_eq!(
        updated[1],
        Action::Run(Statement::UpdateCookieTokens {
            id: "a".to_string(),
            csrf: "c2".to_string(),
            session: "s2".to_string()
        })
    );
    assert_eq!(updated[2], Action::Respond(Reply::Flag(true)));
    let inserted = serve(event(), vec![Answer::Cookie(None), Answer::Done]);
    assert_eq!(
        inserted[1],
        Action::Run(Statement::InsertCookie {
            id: "a".to_string(),
            csrf: "c2".to_string(),
            session: "s2".to_string(),
            belong: 1
        })
    );
    assert_eq!(inserted[2], Action::Respond(Reply::Flag(true)));
}

#[test]
fn cookie_toggle_and_timestamp() {
    let t = serve(DatabaseEvent::CookieToggle { id: "a".to_string(), usable: false }, vec![Answer::Done]);
    assert_eq!(t[0], Action::Run(Statement::SetCookieEnabled { id: "a".to_string(), enabled: false }));
    assert_eq!(t[1], Action::Respond(Reply::Unit));
    let u = serve(DatabaseEvent::CookieUpdateTimestamp("a".to_string()), vec![Answer::Done]);
    assert_eq!(
        u[0],
        Action::Run(Statement::SetCookieLastLogin { id: "a".to_string(), timestamp: 1_700_000_000 })
    );
    assert_eq!(u[1], Action::Respond(Reply::Unit));
}

#[test]
fn v_update_flows() {
    let same = serve(
        DatabaseEvent::VUpdate { v: "5".to_string() },
        vec![Answer::Stats(Some(VStats::new("5".to_string())))],
    );
    assert_eq!(same[0], Action::Run(Statement::IntelVersion));
    assert_eq!(same[1], Action::Respond(Reply::Unit));
    let new = serve(DatabaseEvent::VUpdate { v: "5".to_string() }, vec![Answer::Stats(None), Answer::Done]);
    assert_eq!(new[1], Action::Run(Statement::InsertIntelVersion { v: "5".to_string() }));
    assert_eq!(new[2], Action::Respond(Reply::Unit));
    let q = serve(DatabaseEvent::VQuery, vec![Answer::Stats(None)]);
    assert_eq!(q[1], Action::Respond(Reply::Stats(None)));
}

#[test]
fn log_insert_finishes_silently() {
    let actions = serve(
        DatabaseEvent::LogInsert { id: "a".to_string(), code: "Q".to_string(), error: None },
        vec![Answer::Done],
    );
    assert_eq!(
        actions[0],
        Action::Run(Statement::InsertHistory {
            timestamp: 1_700_000_000,
            id: "a".to_string(),
            code: "Q".to_string(),
            error: None
        })
    );
    assert_eq!(actions[1], Action::Finish);
}

#[test]
fn log_query_empty_id_means_everything() {
    assert_eq!(serve(DatabaseEvent::LogQuery { id: String::new() }, vec![])[0], Action::Run(Statement::AllHistory));
    let row = HistoryRow { timestamp: 1, id: "a".to_string(), code: "Q".to_string(), error: None };
    let actions = serve(DatabaseEvent::LogQuery { id: "a".to_string() }, vec![Answer::History(vec![row.clone()])]);
    assert_eq!(actions[0], Action::Run(Statement::HistoryOf { id: "a".to_string() }));
    assert_eq!(actions[1], Action::Respond(Reply::History(vec![row])));
}

#[test]
fn failures_and_wrong_answers_abort() {
    let failed = serve(DatabaseEvent::UserQuery { user: 1 }, vec![Answer::Failed]);
    assert_eq!(failed[1], Action::Abort);
    let wrong = serve(DatabaseEvent::UserQuery { user: 1 }, vec![Answer::Done]);
    assert_eq!(wrong[1], Action::Abort);
    let over = serve(DatabaseEvent::UserQuery { user: 1 }, vec![Answer::User(None), Answer::Done]);
    assert_eq!(over[2], Action::Finish);
}

#[test]
fn only_timed_events_need_the_clock() {
    assert!(DatabaseEvent::CookieUpdateTimestamp("a".to_string()).needs_clock());
    assert!(DatabaseEvent::LogInsert { id: "a".to_string(), code: "Q".to_string(), error: None }.needs_clock());
    assert!(!DatabaseEvent::VQuery.needs_clock());
    assert!(!DatabaseEvent::CodeAdd { code: "Q".to_string(), message_id: 1 }.needs_clock());
    let (_, early) = Session::start(DatabaseEvent::VQuery, 0);
    let (_, late) = Session::start(DatabaseEvent::VQuery, 2_000_000_000);
    assert_eq!(early, late);
    let (_, action) = Session::start(
        DatabaseEvent::LogInsert { id: "a".to_string(), code: "Q".to_string(), error: Some("e".to_string()) },
        42,
    );
    assert_eq!(
        action,
        Action::Run(Statement::InsertHistory {
            timestamp: 42,
            id: "a".to_string(),
            code: "Q".to_string(),
            error: Some("e".to_string())
        })
    );
    assert!(DatabaseEvent::Terminate.is_terminate());
    assert!(!DatabaseEvent::VQuery.is_terminate());
}

fn open(answers: Vec<Answer>) -> Vec<Action> {
    let (mut startup, first) = Startup::start();
    let mut actions = vec![first];
    for answer in answers {
        let (next, action) = startup.advance(answer);
        startup = next;
        actions.push(action);
    }
    actions
}

#[test]
fn opening_a_blank_file_creates_the_schema() {
    let actions = open(vec![
        Answer::Flag(false),
        Answer::Done,
        Answer::Done,
        Answer::Version(Some("2".to_string())),
    ]);
    assert_eq!(
        actions,
        vec![
            Action::Run(Statement::MetaTableExists),
            Action::Run(Statement::CreateSchema),
            Action::Run(Statement::InsertVersion),
            Action::Run(Statement::SchemaVersion),
            Action::Respond(Reply::Flag(false)),
        ]
    );
}

#[test]
fn opening_a_legacy_file_migrates() {
    let actions = open(vec![
        Answer::Flag(true),
        Answer::Version(Some("1".to_string())),
        Answer::Done,
        Answer::Done,
        Answer::Done,
        Answer::Done,
        Answer::Done,
    ]);
    assert_eq!(
        actions,
        vec![
            Action::Run(Statement::MetaTableExists),
            Action::Run(Statement::SchemaVersion),
            Action::Run(Statement::CreateHistoryV2),
            Action::Run(Statement::CopyHistory),
            Action::Run(Statement::DropHistory),
            Action::Run(Statement::RenameHistoryV2),
            Action::Run(Statement::BumpVersion),
            Action::Respond(Reply::Flag(true)),
        ]
    );
}

#[test]
fn opening_a_current_file_changes_nothing() {
    let actions = open(vec![Answer::Flag(true), Answer::Version(Some("2".to_string()))]);
    assert_eq!(actions[2], Action::Respond(Reply::Flag(false)));
    let missing = open(vec![Answer::Flag(true), Answer::Version(None)]);
    assert_eq!(missing[2], Action::Respond(Reply::Flag(false)));
    let failed = open(vec![Answer::Flag(false), Answer::Failed]);
    assert_eq!(failed[2], Action::Abort);
}
