use arkv::paths::base_name;
use arkv::paths::join_path;
use arkv::paths::parent_of;
use arkv::paths::relative_to;

#[test]
fn join_inserts_separator() {
    assert_eq!(join_path("/r", "f"), "/r/f");
}

#[test]
fn join_keeps_existing_separator() {
    assert_eq!(join_path("/r/", "f"), "/r/f");
}

#[test]
fn join_empty_base_is_name() {
    assert_eq!(join_path("", "f"), "f");
}

#[test]
fn join_nested_relative() {
    assert_eq!(join_path("/up/d", "sub/b"), "/up/d/sub/b");
}

#[test]
fn base_name_of_plain_file() {
    assert_eq!(base_name("cool-picture.png"), "cool-picture.png");
}

#[test]
fn base_name_of_nested_path() {
    assert_eq!(base_name("a/b/c.txt"), "c.txt");
}

#[test]
fn base_name_ignores_trailing_separator() {
    assert_eq!(base_name("my_files/tuesday/"), "tuesday");
}

#[test]
fn base_name_of_root_is_empty() {
    assert_eq!(base_name("/"), "");
}

#[test]
fn parent_of_nested_path() {
    assert_eq!(parent_of("/r/d/sub"), Some("/r/d".to_string()));
}

#[test]
fn parent_of_top_level_is_root() {
    assert_eq!(parent_of("/r"), Some("/".to_string()));
}

#[test]
fn parent_of_root_is_none() {
    assert_eq!(parent_of("/"), None);
}

#[test]
fn parent_of_empty_is_none() {
    assert_eq!(parent_of(""), None);
}

#[test]
fn parent_of_bare_name_is_empty() {
    assert_eq!(parent_of("a"), Some("".to_string()));
}

#[test]
fn parent_chain_terminates() {
    let mut p = "/a/b/c/d".to_string();
    let mut steps = 0;
    while let Some(q) = parent_of(&p) {
        assert!(q.len() < p.len());
        p = q;
        steps += 1;
        assert!(steps < 10);
    }
    assert_eq!(p, "/");
}

#[test]
fn relative_strips_leading_separators() {
    assert_eq!(relative_to("/root/sub/b", 5), "sub/b");
}

#[test]
fn relative_of_root_itself_is_empty() {
    assert_eq!(relative_to("/root", 5), "");
}
