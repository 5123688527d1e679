use passcode_forwarder::broadcast::BroadcastEvent;
use passcode_forwarder::database;
use passcode_forwarder::statement::{Param, Statement, CREATE_STATEMENT, LEGACY_VERSION, VERSION};
use passcode_forwarder::types::{AccessLevel, Cookie, MetaRow, User, VStats};

fn cookie(id: &str, belong: i64) -> Cookie {
    Cookie {
        id: id.to_string(),
        csrf_token: "old-csrf".to_string(),
        session_id: "old-session".to_string(),
        last_login: 17,
        belong,
        enabled: true,
    }
}

#[test]
fn broadcast_events_carry_the_code() {
    assert_eq!(BroadcastEvent::new_code("abc123"), BroadcastEvent::NewCode("abc123".to_string()));
    assert_eq!(BroadcastEvent::new_code(""), BroadcastEvent::NewCode(String::new()));
    assert_eq!(BroadcastEvent::exit(), BroadcastEvent::Exit);
}

#[test]
fn access_levels_have_distinct_codes() {
    assert_eq!(AccessLevel::NoAccess.i32(), 0);
    assert_eq!(AccessLevel::Cookie.i32(), 1);
    assert_eq!(AccessLevel::Send.i32(), 2);
    assert_eq!(AccessLevel::All.i32(), 3);
}

#[test]
fn row_getters() {
    let u = User { id: 5, authorized: 2 };
    assert_eq!(u.authorized(), 2);
    assert_eq!(cookie("a", 9).belong(), 9);
    let m = MetaRow { key: "intel_v".to_string(), value: "{\"v\":\"x\"}".to_string() };
    assert_eq!(m.value(), "{\"v\":\"x\"}");
    let v = VStats::new("1.2.3".to_string());
    assert_eq!(v.v(), "1.2.3");
}

#[test]
fn versions_and_schema() {
    assert_eq!(VERSION, "2");
    assert_eq!(LEGACY_VERSION, "1");
    assert!(CREATE_STATEMENT.contains("CREATE TABLE \"history\""));
    assert_eq!(database::create_db().sql(), CREATE_STATEMENT);
    let insert = database::insert_database_version();
    assert_eq!(insert.sql(), "INSERT INTO \"meta\" VALUES (\"version\", ?)");
    assert_eq!(insert.params(), vec![Param::Text("2".to_string())]);
    assert_eq!(database::check_database_table(), Statement::MetaTableExists);
    assert_eq!(
        database::check_database_version().sql(),
        "SELECT \"value\" FROM \"meta\" WHERE \"key\" = 'version'"
    );
}

#[test]
fn migration_only_from_the_legacy_version() {
    assert!(database::migration(&Some("1".to_string())));
    assert!(!database::migration(&Some("2".to_string())));
    assert!(!database::migration(&Some("11".to_string())));
    assert!(!database::migration(&Some(String::new())));
    assert!(!database::migration(&None));
}

#[test]
fn migration_statements_in_order() {
    let steps = database::migration_v1();
    assert_eq!(
        steps,
        vec![
            Statement::CreateHistoryV2,
            Statement::CopyHistory,
            Statement::DropHistory,
            Statement::RenameHistoryV2,
            Statement::BumpVersion,
        ]
    );
    assert_eq!(steps[4].sql(), "UPDATE \"meta\" SET \"value\" = '2' WHERE \"key\" = 'version' ");
    assert_eq!(steps[2].sql(), "DROP TABLE \"history\"");
}

#[test]
fn check_auth_refuses_negative_ids() {
    assert_eq!(database::_check_auth(-1), None);
    assert_eq!(database::_check_auth(i64::MIN), None);
    assert_eq!(database::_check_auth(0), Some(Statement::AuthorizedUser { user: 0 }));
    let q = database::_check_auth(42).unwrap();
    assert_eq!(q.sql(), "SELECT 1 FROM \"users\" WHERE \"id\" = ? AND \"authorized\" = 1");
    assert_eq!(q.params(), vec![Param::Integer(42)]);
}

#[test]
fn code_statements() {
    let q = database::query_code("ABC");
    assert_eq!(q, Statement::CodeByCode { code: "ABC".to_string() });
    assert!(q.is_read());
    let ins = database::insert_code("ABC", 77);
    assert!(!ins.is_read());
    assert_eq!(ins.sql(), "INSERT INTO \"codes\" VALUES (?, ?, 0)");
    assert_eq!(ins.params(), vec![Param::Text("ABC".to_string()), Param::SmallInteger(77)]);
    let fr = database::set_code_fr("ABC", true);
    assert_eq!(fr.sql(), "UPDATE \"codes\" SET \"fr\" = ? WHERE \"code\" = ?");
    assert_eq!(fr.params(), vec![Param::Flag(true), Param::Text("ABC".to_string())]);
}

#[test]
fn user_statements() {
    assert_eq!(database::query_user(3), Statement::UserById { user: 3 });
    let ins = database::insert_user(3, AccessLevel::Send);
    assert_eq!(ins, Statement::InsertUser { user: 3, level: 2 });
    assert_eq!(ins.params(), vec![Param::Integer(3), Param::SmallInteger(2)]);
}

#[test]
fn set_authorized_status_writes_only_changes() {
    assert_eq!(
        database::set_authorized_status(8, AccessLevel::All, &None),
        Some(Statement::InsertUser { user: 8, level: 3 })
    );
    let upd = database::set_authorized_status(8, AccessLevel::All, &Some(User { id: 8, authorized: 1 }))
        .unwrap();
    assert_eq!(upd, Statement::UpdateUserLevel { user: 8, level: 3 });
    assert_eq!(upd.sql(), "UPDATE \"users\" SET \"authorized\" = ? WHERE \"id\" = ?");
    assert_eq!(upd.params(), vec![Param::SmallInteger(3), Param::Integer(8)]);
    assert_eq!(
        database::set_authorized_status(8, AccessLevel::Cookie, &Some(User { id: 8, authorized: 1 })),
        None
    );
}

#[test]
fn cookie_set_refuses_accounts_of_others() {
    let (ok, w) = database::cookie_set(1, "c", "s", "acc", &Some(cookie("acc", 2)));
    assert!(!ok);
    assert_eq!(w, None);
}

#[test]
fn cookie_set_updates_own_accounts() {
    let (ok, w) = database::cookie_set(1, "c", "s", "acc", &Some(cookie("acc", 1)));
    assert!(ok);
    let w = w.unwrap();
    assert_eq!(
        w,
        Statement::UpdateCookieTokens { id: "acc".to_string(), csrf: "c".to_string(), session: "s".to_string() }
    );
    assert_eq!(
        w.params(),
        vec![Param::Text("c".to_string()), Param::Text("s".to_string()), Param::Text("acc".to_string())]
    );
}

#[test]
fn cookie_set_inserts_new_accounts() {
    let (ok, w) = database::cookie_set(1, "c", "s", "acc", &None);
    assert!(ok);
    let w = w.unwrap();
    assert_eq!(w.sql(), "INSERT INTO \"cookies\" VALUES (?, ?, ?, 0, ?, 1)");
    assert_eq!(
        w.params(),
        vec![
            Param::Text("acc".to_string()),
            Param::Text("c".to_string()),
            Param::Text("s".to_string()),
            Param::Integer(1),
        ]
    );
}

#[test]
fn cookie_statements() {
    assert_eq!(
        database::cookie_usable("acc", false).params(),
        vec![Param::Flag(false), Param::Text("acc".to_string())]
    );
    assert_eq!(
        database::cookie_update_timestamp("acc", 1_700_000_000),
        Statement::SetCookieLastLogin { id: "acc".to_string(), timestamp: 1_700_000_000 }
    );
    assert_eq!(database::cookie_query("acc"), Statement::CookieById { id: "acc".to_string() });
    assert_eq!(database::cookie_query_user(4), Statement::CookiesOf { belong: 4 });
    assert_eq!(database::cookie_query_all_enabled().sql(), "SELECT* FROM \"cookies\"  WHERE \"enabled\" = 1");
    assert_eq!(database::cookie_query_all().sql(), "SELECT* FROM \"cookies\"");
    assert!(database::cookie_query_all().params().is_empty());
}

#[test]
fn v_update_writes_only_changes() {
    assert_eq!(database::v_query(), Statement::IntelVersion);
    assert_eq!(
        database::v_update("9".to_string(), &None),
        Some(Statement::InsertIntelVersion { v: "9".to_string() })
    );
    assert_eq!(database::v_update("9".to_string(), &Some(VStats::new("9".to_string()))), None);
    let upd = database::v_update("10".to_string(), &Some(VStats::new("9".to_string()))).unwrap();
    assert_eq!(upd.sql(), "UPDATE \"meta\" SET \"value\" = ? WHERE \"key\" = 'intel_v'");
    assert_eq!(upd.params(), vec![Param::StatsDocument("10".to_string())]);
}

#[test]
fn log_statements() {
    let st = database::log_add("acc", "CODE", Some("expired".to_string()), 1234);
    assert_eq!(
        st.params(),
        vec![
            Param::Integer(1234),
            Param::Text("acc".to_string()),
            Param::Text("CODE".to_string()),
            Param::OptionalText(Some("expired".to_string())),
        ]
    );
    assert_eq!(
        database::log_add("acc", "CODE", None, u64::MAX),
        Statement::InsertHistory { timestamp: -1, id: "acc".to_string(), code: "CODE".to_string(), error: None }
    );
    assert!(database::log_query("acc").sql().ends_with("LIMIT 20"));
    assert!(database::log_query_all().sql().ends_with("LIMIT 40"));
}

