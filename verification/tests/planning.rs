use arkv::walker::plan_single;
use arkv::walker::plan_tree;

#[test]
fn single_file_goes_directly_under_base() {
    let t = plan_single("f", "/r");
    assert_eq!(t.local_path, "f");
    assert_eq!(t.relative_path, "f");
    assert_eq!(t.remote_path, "/r/f");
}

#[test]
fn single_file_keeps_only_its_name() {
    let t = plan_single("some/dir/photo.png", "/uploads");
    assert_eq!(t.relative_path, "photo.png");
    assert_eq!(t.remote_path, "/uploads/photo.png");
}

#[test]
fn directory_nests_under_its_own_name() {
    let entries = vec![
        ("d".to_string(), false),
        ("d/a".to_string(), true),
        ("d/sub".to_string(), false),
        ("d/sub/b".to_string(), true),
    ];
    let tasks = plan_tree("d", "/r", &entries);
    assert_eq!(tasks.len(), 2);
    assert_eq!(tasks[0].local_path, "d/a");
    assert_eq!(tasks[0].relative_path, "a");
    assert_eq!(tasks[0].remote_path, "/r/d/a");
    assert_eq!(tasks[1].local_path, "d/sub/b");
    assert_eq!(tasks[1].relative_path, "sub/b");
    assert_eq!(tasks[1].remote_path, "/r/d/sub/b");
}

#[test]
fn directory_entries_keep_enumeration_order() {
    let entries = vec![
        ("d/z".to_string(), true),
        ("d/a".to_string(), true),
        ("d/m".to_string(), true),
    ];
    let tasks = plan_tree("d", "/r", &entries);
    let rels: Vec<&str> = tasks.iter().map(|t| t.relative_path.as_str()).collect();
    assert_eq!(rels, vec!["z", "a", "m"]);
}

#[test]
fn non_files_are_not_transferred() {
    let entries = vec![("d".to_string(), false), ("d/sub".to_string(), false)];
    let tasks = plan_tree("d", "/r", &entries);
    assert_eq!(tasks.len(), 0);
}
