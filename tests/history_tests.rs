use ddd_tool::{commit_parents, find_commit, walk_history, CommitRecord, LogWalk};

fn commit(oid: &str, message: &str, t: i64, parent: Option<&str>) -> CommitRecord {
    CommitRecord {
        oid: oid.to_string(),
        message: message.to_string(),
        timestamp: t,
        first_parent: parent.map(|p| p.to_string()),
    }
}

fn chain() -> Vec<CommitRecord> {
    vec![
        commit("c1", "first", 100, None),
        commit("c3", "third", 300, Some("c2")),
        commit("c2", "second", 200, Some("c1")),
    ]
}

#[test]
fn log_of_fresh_repository_is_empty() {
    assert!(walk_history(&Vec::new(), None, 10).is_empty());
    assert!(walk_history(&chain(), None, 10).is_empty());
}

#[test]
fn log_after_one_commit() {
    let arena = vec![commit("abc123", "add a", 42, None)];
    let log = walk_history(&arena, Some("abc123".to_string()), 10);
    assert_eq!(log.len(), 1);
    assert_eq!(log[0].oid, "abc123");
    assert_eq!(log[0].message, "add a");
    assert_eq!(log[0].timestamp, 42);
}

#[test]
fn log_is_newest_first_and_bounded() {
    let log = walk_history(&chain(), Some("c3".to_string()), 10);
    let ids: Vec<&str> = log.iter().map(|e| e.oid.as_str()).collect();
    assert_eq!(ids, vec!["c3", "c2", "c1"]);
    let log = walk_history(&chain(), Some("c3".to_string()), 2);
    let ids: Vec<&str> = log.iter().map(|e| e.oid.as_str()).collect();
    assert_eq!(ids, vec!["c3", "c2"]);
    assert!(walk_history(&chain(), Some("c3".to_string()), 0).is_empty());
}

#[test]
fn log_stops_at_unknown_parent() {
    let arena = vec![commit("c9", "tip", 9, Some("gone"))];
    let log = walk_history(&arena, Some("c9".to_string()), 5);
    assert_eq!(log.len(), 1);
}

#[test]
fn stepwise_walk() {
    let mut w = LogWalk::start(Some("c2".to_string()), 5);
    assert_eq!(w.next_request(), Some("c2".to_string()));
    w.feed(commit("c2", "second", 200, Some("c1")));
    assert_eq!(w.next_request(), Some("c1".to_string()));
    w.feed(commit("c1", "first", 100, None));
    assert_eq!(w.next_request(), None);
    let entries = w.finish();
    assert_eq!(entries.len(), 2);
    assert_eq!(entries[1].message, "first");
}

#[test]
fn find_commit_by_id() {
    assert_eq!(find_commit(&chain(), &"c2".to_string()), Some(2));
    assert_eq!(find_commit(&chain(), &"zz".to_string()), None);
}

#[test]
fn parents_of_new_commit() {
    assert!(commit_parents(None).is_empty());
    assert_eq!(commit_parents(Some("c3".to_string())), vec!["c3".to_string()]);
}
