use ferris_bot::storage::{check_table, JsonStorage, Loaded, UserSettings};

fn record(id: i64, city: Option<&str>, time: Option<&str>) -> UserSettings {
    UserSettings {
        user_id: id,
        city: city.map(|c| c.to_string()),
        notification_time: time.map(|t| t.to_string()),
        cute_mode: false,
        state: None,
    }
}

fn empty_store() -> JsonStorage {
    JsonStorage::new("users.json", Loaded::Absent).0
}

#[test]
fn default_record_has_nothing_configured() {
    let u = UserSettings::new(42);
    assert_eq!(u, record(42, None, None));
    assert!(u.is_ok());
}

#[test]
fn missing_file_gives_empty_table() {
    let (store, backup) = JsonStorage::new("users.json", Loaded::Absent);
    assert!(store.get_all_users().is_empty());
    assert_eq!(backup, None);
    assert_eq!(store.file_path(), "users.json");
}

#[test]
fn blank_file_gives_empty_table_without_backup() {
    let loaded = Loaded::Content { text: "  \n\t ".to_string(), parsed: None };
    let (store, backup) = JsonStorage::new("users.json", loaded);
    assert!(store.get_all_users().is_empty());
    assert_eq!(backup, None);
}

#[test]
fn empty_file_gives_empty_table_without_backup() {
    let loaded = Loaded::Content { text: String::new(), parsed: None };
    let (store, backup) = JsonStorage::new("users.json", loaded);
    assert!(store.get_all_users().is_empty());
    assert_eq!(backup, None);
}

#[test]
fn invalid_syntax_gives_empty_table_and_backup() {
    let loaded = Loaded::Content { text: "{ not json".to_string(), parsed: None };
    let (store, backup) = JsonStorage::new("data/users.json", loaded);
    assert!(store.get_all_users().is_empty());
    assert_eq!(backup, Some("data/users.json.backup".to_string()));
    assert_eq!(store.file_path(), "data/users.json");
}

#[test]
fn decoded_file_becomes_the_table() {
    let records = vec![record(1, Some("Omsk"), Some("08:00")), record(2, None, None)];
    let loaded = Loaded::Content { text: "[...]".to_string(), parsed: Some(records) };
    let (store, backup) = JsonStorage::new("users.json", loaded);
    assert_eq!(backup, None);
    assert_eq!(
        store.get_all_users(),
        vec![record(1, Some("Omsk"), Some("08:00")), record(2, None, None)]
    );
    assert_eq!(store.get_user(2), Some(record(2, None, None)));
}

#[test]
fn file_with_two_records_of_one_subscriber_is_corrupt() {
    let records = vec![record(1, Some("Omsk"), None), record(1, Some("Ufa"), None)];
    assert!(!check_table(&records));
    let loaded = Loaded::Content { text: "[...]".to_string(), parsed: Some(records) };
    let (store, backup) = JsonStorage::new("users.json", loaded);
    assert!(store.get_all_users().is_empty());
    assert_eq!(backup, Some("users.json.backup".to_string()));
}

#[test]
fn file_with_malformed_time_is_corrupt() {
    let records = vec![record(1, Some("Omsk"), Some("25:00"))];
    assert!(!check_table(&records));
    let loaded = Loaded::Content { text: "[...]".to_string(), parsed: Some(records) };
    let (store, backup) = JsonStorage::new("users.json", loaded);
    assert!(store.get_all_users().is_empty());
    assert_eq!(backup, Some("users.json.backup".to_string()));
}

#[test]
fn get_of_unknown_subscriber_finds_nothing() {
    let mut store = empty_store();
    assert_eq!(store.get_user(1), None);
    assert!(store.save_user(record(1, None, None)));
    assert_eq!(store.get_user(2), None);
}

#[test]
fn put_then_get_returns_the_record() {
    let mut store = empty_store();
    let mut u = record(7, Some("Пермь"), Some("23:59"));
    u.cute_mode = true;
    u.state = Some("waiting_for_city".to_string());
    assert!(store.save_user(u.clone()));
    assert_eq!(store.get_user(7), Some(u));
}

#[test]
fn put_then_get_survives_a_reload() {
    let mut store = empty_store();
    assert!(store.save_user(record(7, Some("Пермь"), Some("23:59"))));
    assert!(store.save_user(record(9, None, None)));
    let kept = store.get_all_users();
    let loaded = Loaded::Content { text: "[ two records ]".to_string(), parsed: Some(kept) };
    let (again, backup) = JsonStorage::new(store.file_path(), loaded);
    assert_eq!(backup, None);
    assert_eq!(again.get_user(7), Some(record(7, Some("Пермь"), Some("23:59"))));
    assert_eq!(again.get_user(9), Some(record(9, None, None)));
    assert_eq!(again.get_all_users(), store.get_all_users());
}

#[test]
fn put_twice_leaves_one_entry() {
    let mut store = empty_store();
    assert!(store.save_user(record(1, None, None)));
    assert!(store.save_user(record(7, Some("Уфа"), None)));
    assert!(store.save_user(record(7, Some("Уфа"), None)));
    let all = store.get_all_users();
    assert_eq!(all.len(), 2);
    assert_eq!(all.iter().filter(|u| u.user_id == 7).count(), 1);
}

#[test]
fn put_replaces_in_place_and_appends_new() {
    let mut store = empty_store();
    assert!(store.save_user(record(1, None, None)));
    assert!(store.save_user(record(2, None, None)));
    assert!(store.save_user(record(3, None, None)));
    assert!(store.save_user(record(2, Some("Омск"), Some("08:00"))));
    assert_eq!(
        store.get_all_users(),
        vec![record(1, None, None), record(2, Some("Омск"), Some("08:00")), record(3, None, None)]
    );
    assert_eq!(store.get_user(1), Some(record(1, None, None)));
    assert_eq!(store.get_user(3), Some(record(3, None, None)));
}

#[test]
fn put_refuses_a_malformed_time() {
    let mut store = empty_store();
    assert!(store.save_user(record(1, None, Some("08:00"))));
    assert!(!store.save_user(record(1, None, Some("8:00"))));
    assert!(!store.save_user(record(2, None, Some("24:00"))));
    assert_eq!(store.get_all_users(), vec![record(1, None, Some("08:00"))]);
}

#[test]
fn snapshot_is_a_copy() {
    let mut store = empty_store();
    assert!(store.save_user(record(1, None, None)));
    let mut all = store.get_all_users();
    all[0].cute_mode = true;
    all.push(record(2, None, None));
    assert_eq!(store.get_all_users(), vec![record(1, None, None)]);
}

#[test]
fn negative_ids_are_ids_like_any_other() {
    let mut store = empty_store();
    assert!(store.save_user(record(-100123, Some("Омск"), None)));
    assert!(store.save_user(record(i64::MIN, None, None)));
    assert_eq!(store.get_user(-100123), Some(record(-100123, Some("Омск"), None)));
    assert_eq!(store.get_user(i64::MIN), Some(record(i64::MIN, None, None)));
    assert_eq!(store.get_user(100123), None);
}
