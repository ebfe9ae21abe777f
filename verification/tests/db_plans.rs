use grabit::db::{
    all_logs_query, any_rows, count_shows_some, db_url, logs_by_level_query, logs_in_range_query,
    migration_script, pending_migrations, recent_logs_query, ref_log_message, ref_log_pattern,
    refs_by_type_query, removal_outcome, search_logs_query, search_pattern, BindValue, DBInfo,
    QueryPart, MIGRATION_COUNT,
};
use grabit::logs::LogLevel;
use grabit::reference::{RefT, Timestamp};

fn render(q: &[QueryPart]) -> String {
    let mut s = String::new();
    for p in q {
        match p {
            QueryPart::Sql(t) => s.push_str(t),
            QueryPart::Bind(BindValue::Int(i)) => s.push_str(&format!("<{i}>")),
            QueryPart::Bind(BindValue::Text(t)) => s.push_str(&format!("<'{t}'>")),
            QueryPart::Bind(BindValue::Time(t)) => s.push_str(&format!("<@{}.{}>", t.secs, t.nanos)),
        }
    }
    s
}

#[test]
fn migrations_pending_from_start() {
    assert_eq!(pending_migrations(None), vec![1]);
    assert_eq!(pending_migrations(Some(0)), vec![1]);
    assert_eq!(pending_migrations(Some(-3)), vec![1]);
}

#[test]
fn migrations_none_pending_when_applied() {
    assert_eq!(pending_migrations(Some(1)), Vec::<i64>::new());
    assert_eq!(pending_migrations(Some(9)), Vec::<i64>::new());
    let all = pending_migrations(None);
    assert_eq!(pending_migrations(all.last().copied()), Vec::<i64>::new());
}

#[test]
fn migration_scripts_exist_for_each_version() {
    for v in 1..=MIGRATION_COUNT {
        let s = migration_script(v).unwrap();
        assert!(s.contains("CREATE TABLE IF NOT EXISTS logs"));
        assert!(s.contains("UNIQUE(path)"));
    }
    assert!(migration_script(0).is_none());
    assert!(migration_script(MIGRATION_COUNT + 1).is_none());
}

#[test]
fn refs_by_type_plan() {
    assert_eq!(
        render(&refs_by_type_query(RefT::Pocket, Some(5))),
        "SELECT id, rt, path, created FROM references WHERE rt = <'pocket'> ORDER BY created DESC LIMIT <5>"
    );
    assert_eq!(
        render(&refs_by_type_query(RefT::System, None)),
        "SELECT id, rt, path, created FROM references WHERE rt = <'system'> ORDER BY created DESC"
    );
}

#[test]
fn all_logs_plan() {
    let base = "SELECT id, level, message, created FROM logs ORDER BY created DESC";
    assert_eq!(render(&all_logs_query(None, None)), base);
    assert_eq!(render(&all_logs_query(Some(10), Some(20))), format!("{base} LIMIT <10> OFFSET <20>"));
    assert_eq!(render(&all_logs_query(None, Some(3))), format!("{base} OFFSET <3>"));
    assert_eq!(render(&all_logs_query(Some(u32::MAX), None)), format!("{base} LIMIT <4294967295>"));
}

#[test]
fn recent_logs_plan_is_limited_all_logs() {
    assert_eq!(render(&recent_logs_query(4)), render(&all_logs_query(Some(4), None)));
}

#[test]
fn logs_by_level_plan() {
    assert_eq!(
        render(&logs_by_level_query(LogLevel::Error, Some(2))),
        "SELECT id, level, message, created FROM logs WHERE level = <'ERROR'> ORDER BY created DESC LIMIT <2>"
    );
}

#[test]
fn search_logs_plan() {
    assert_eq!(search_pattern("disk"), "%disk%");
    assert_eq!(
        render(&search_logs_query("disk", None)),
        "SELECT id, level, message, created FROM logs WHERE message LIKE <'%disk%'> ORDER BY created DESC"
    );
}

#[test]
fn logs_in_range_plan() {
    let a = Timestamp { secs: 1, nanos: 2 };
    let b = Timestamp { secs: 3, nanos: 4 };
    assert_eq!(
        render(&logs_in_range_query(a, b, Some(1))),
        "SELECT id, level, message, created FROM logs WHERE created BETWEEN <@1.2> AND <@3.4> ORDER BY created DESC LIMIT <1>"
    );
}

#[test]
fn ref_log_message_and_pattern() {
    assert_eq!(ref_log_message("Added", 42), "Added - Reference ID: 42");
    assert_eq!(ref_log_pattern(42), "%Reference ID: 42%");
    assert_eq!(ref_log_message("x", -1), "x - Reference ID: -1");
}

#[test]
fn ref_log_message_found_by_pattern() {
    let msg = ref_log_message("Removed", 1234);
    let marker = ref_log_pattern(1234);
    assert!(msg.contains(marker.trim_matches('%')));
}

#[test]
fn removal_outcome_logs_only_deletions() {
    assert_eq!(removal_outcome(1, "Removed", 9), (true, Some("Removed - Reference ID: 9".to_string())));
    assert_eq!(removal_outcome(0, "Removed", 9), (false, None));
}

#[test]
fn row_counts() {
    assert!(any_rows(1));
    assert!(!any_rows(0));
    assert!(count_shows_some(3));
    assert!(!count_shows_some(0));
}

#[test]
fn db_url_prefix() {
    assert_eq!(db_url("/r/hands/w/index.db"), "sqlite:///r/hands/w/index.db");
}

#[test]
fn db_info_describe() {
    let info = DBInfo { ref_count: 3, log_count: 12, db_size_bytes: 4096, db_path: "/x/index.db".to_string() };
    assert_eq!(
        info.describe(),
        "Database Info:\n\n            Path: /x/index.db\n\n            References: 3\n\n            Logs: 12\n\n            Size: 4096 bytes"
    );
}
