use ddd_tool::{stage_action, unstage_action, HeadEntry, Index, StageAction, UnstageAction};

fn entry_of(index: &Index, path: &str) -> Option<(u32, Vec<u8>)> {
    index
        .position(&path.to_string())
        .map(|i| (index.entries[i].mode, index.entries[i].oid.clone()))
}

#[test]
fn stage_new_file_then_unstage_in_empty_repo() {
    let mut index = Index::new();
    index.stage("a.txt".to_string(), Some((0o100644, vec![1, 2, 3])));
    assert_eq!(entry_of(&index, "a.txt"), Some((0o100644, vec![1, 2, 3])));
    index.unstage("a.txt".to_string(), HeadEntry::NoCommits);
    assert_eq!(entry_of(&index, "a.txt"), None);
    assert!(index.entries.is_empty());
}

#[test]
fn stage_edit_then_unstage_restores_head() {
    let mut index = Index::new();
    index.upsert("a.txt".to_string(), 0o100644, vec![7]);
    index.upsert("b.txt".to_string(), 0o100755, vec![8]);
    index.stage("a.txt".to_string(), Some((0o100644, vec![9])));
    assert_eq!(entry_of(&index, "a.txt"), Some((0o100644, vec![9])));
    assert_eq!(index.entries.len(), 2);
    index.unstage("a.txt".to_string(), HeadEntry::Present(0o100644, vec![7]));
    assert_eq!(entry_of(&index, "a.txt"), Some((0o100644, vec![7])));
    assert_eq!(entry_of(&index, "b.txt"), Some((0o100755, vec![8])));
}

#[test]
fn stage_deletion_then_unstage_restores_head() {
    let mut index = Index::new();
    index.upsert("a.txt".to_string(), 0o100644, vec![5]);
    index.stage("a.txt".to_string(), None);
    assert_eq!(entry_of(&index, "a.txt"), None);
    index.unstage("a.txt".to_string(), HeadEntry::Present(0o100644, vec![5]));
    assert_eq!(entry_of(&index, "a.txt"), Some((0o100644, vec![5])));
}

#[test]
fn unstage_added_path_absent_from_head() {
    let mut index = Index::new();
    index.upsert("old.txt".to_string(), 0o100644, vec![1]);
    index.stage("new.txt".to_string(), Some((0o100644, vec![2])));
    index.unstage("new.txt".to_string(), HeadEntry::Absent);
    assert_eq!(entry_of(&index, "new.txt"), None);
    assert_eq!(entry_of(&index, "old.txt"), Some((0o100644, vec![1])));
}

#[test]
fn removing_missing_path_changes_nothing() {
    let mut index = Index::new();
    index.upsert("a".to_string(), 1, vec![1]);
    index.remove_path(&"b".to_string());
    assert_eq!(index.entries.len(), 1);
    index.remove_path(&"a".to_string());
    assert!(index.entries.is_empty());
}

#[test]
fn actions_follow_disk_and_history() {
    assert_eq!(stage_action(true), StageAction::AddFile);
    assert_eq!(stage_action(false), StageAction::RemoveEntry);
    assert_eq!(unstage_action(true), UnstageAction::RemoveEntry);
    assert_eq!(unstage_action(false), UnstageAction::ResetToHead);
}
