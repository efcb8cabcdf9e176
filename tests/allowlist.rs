use relay_gate::{Change, WhiteList};

fn names(v: &[&str]) -> Vec<String> {
    v.iter().map(|s| s.to_string()).collect()
}

#[test]
fn add_twice_keeps_one_entry() {
    let mut wl = WhiteList::new();
    assert!(wl.add_user("x"));
    assert!(!wl.add_user("x"));
    assert_eq!(wl.list(), names(&["x"]));
    assert!(wl.staged_add("x").is_none());
}

#[test]
fn remove_after_add_restores() {
    let mut wl = WhiteList::from_users(names(&["a", "b"]));
    assert!(wl.add_user("c"));
    assert!(wl.remove_user("c"));
    assert_eq!(wl.list(), names(&["a", "b"]));
    assert!(!wl.remove_user("c"));
}

#[test]
fn distinct_adds_are_all_kept() {
    let mut wl = WhiteList::new();
    let all = ["u1", "u2", "u3", "u4", "u5", "u6", "u7", "u8"];
    for n in all.iter() {
        assert!(wl.add_user(n));
    }
    assert_eq!(wl.list(), names(&all));
    for n in all.iter() {
        assert!(wl.is_allowed(n));
    }
}

#[test]
fn identities_are_case_sensitive() {
    let wl = WhiteList::from_users(names(&["Bob"]));
    assert!(wl.is_allowed("Bob"));
    assert!(!wl.is_allowed("bob"));
}

#[test]
fn from_users_drops_duplicates() {
    let wl = WhiteList::from_users(names(&["a", "b", "a"]));
    assert_eq!(wl.list(), names(&["a", "b"]));
}

#[test]
fn record_of_empty_list() {
    assert_eq!(WhiteList::new().record(), "{\n  \"users\": []\n}");
}

#[test]
fn record_is_pretty_json() {
    let wl = WhiteList::from_users(names(&["a", "b"]));
    assert_eq!(
        wl.record(),
        "{\n  \"users\": [\n    \"a\",\n    \"b\"\n  ]\n}"
    );
}

#[test]
fn record_escapes_identities() {
    let wl = WhiteList::from_users(names(&["q\"uote"]));
    assert_eq!(wl.record(), "{\n  \"users\": [\n    \"q\\\"uote\"\n  ]\n}");
}

#[test]
fn record_reads_back() {
    let wl = WhiteList::from_users(names(&["a", "q\"uote", "zed"]));
    let back = WhiteList::from_record(&wl.record());
    assert_eq!(back.list(), names(&["a", "q\"uote", "zed"]));
}

#[test]
fn record_with_other_fields_is_read() {
    let wl = WhiteList::from_record("{\"users\": [\"a\", \"b\"], \"note\": 1}");
    assert_eq!(wl.list(), names(&["a", "b"]));
}

#[test]
fn malformed_record_is_empty() {
    assert!(WhiteList::from_record("not json").list().is_empty());
    assert!(WhiteList::from_record("{}").list().is_empty());
    assert!(WhiteList::from_record("{\"users\": [1, 2]}").list().is_empty());
    assert!(WhiteList::from_record("[\"a\"]").list().is_empty());
    assert!(WhiteList::from_record("").list().is_empty());
}

#[test]
fn staged_add_and_settle_written() {
    let mut wl = WhiteList::new();
    let staged = wl.staged_add("bob");
    assert!(wl.list().is_empty());
    assert_eq!(wl.settle(staged, true), Change::Changed);
    assert_eq!(wl.list(), names(&["bob"]));
}

#[test]
fn failed_write_keeps_list() {
    let mut wl = WhiteList::from_users(names(&["a"]));
    let staged = wl.staged_add("bob");
    assert_eq!(wl.settle(staged, false), Change::NotSaved);
    assert_eq!(wl.list(), names(&["a"]));
    let staged = wl.staged_remove("a");
    assert_eq!(wl.settle(staged, false), Change::NotSaved);
    assert_eq!(wl.list(), names(&["a"]));
}

#[test]
fn staged_remove_of_absent_is_unchanged() {
    let mut wl = WhiteList::from_users(names(&["a"]));
    let staged = wl.staged_remove("zed");
    assert!(staged.is_none());
    assert_eq!(wl.settle(staged, true), Change::Unchanged);
    assert_eq!(wl.list(), names(&["a"]));
}

#[test]
fn staged_remove_written() {
    let mut wl = WhiteList::from_users(names(&["a", "b", "c"]));
    let staged = wl.staged_remove("b");
    assert_eq!(wl.settle(staged, true), Change::Changed);
    assert_eq!(wl.list(), names(&["a", "c"]));
}

#[test]
fn record_escapes_control_characters() {
    let wl = WhiteList::from_users(names(&["a\u{1}\tb\\c/"]));
    assert_eq!(
        wl.record(),
        "{\n  \"users\": [\n    \"a\\u0001\\tb\\\\c/\"\n  ]\n}"
    );
}
