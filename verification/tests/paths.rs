use django_bakery::paths::{guard_path_within_root, join, normalize_lexically};
use django_bakery::Error;

const CWD: &str = "/home/baker/work";

#[test]
fn allows_paths_inside_root() {
    let root = "/tmp/proj";
    assert!(guard_path_within_root("/tmp/proj/a/b.py", root, CWD).is_ok());
    assert!(guard_path_within_root("/tmp/proj/a/./b", root, CWD).is_ok());
    assert!(guard_path_within_root("/tmp/proj/a/x/../b", root, CWD).is_ok());
}

#[test]
fn rejects_dotdot_escaping_root() {
    let root = "/tmp/proj";
    assert!(guard_path_within_root("/tmp/proj/../etc/passwd", root, CWD).is_err());
    assert!(guard_path_within_root("/tmp/proj/a/../../etc", root, CWD).is_err());
}

#[test]
fn rejects_absolute_path_outside_root() {
    let root = "/tmp/proj";
    assert!(guard_path_within_root("/etc/passwd", root, CWD).is_err());
    assert!(guard_path_within_root("/tmp/other", root, CWD).is_err());
}

#[test]
fn allows_relative_root_with_leading_dot() {
    let root = "./awesomeapp";
    assert!(guard_path_within_root("./awesomeapp/LICENSE", root, CWD).is_ok());
    assert!(guard_path_within_root("./awesomeapp/config/settings/base.py", root, CWD).is_ok());
    assert!(guard_path_within_root("awesomeapp/LICENSE", root, CWD).is_ok());
}

#[test]
fn rejects_relative_dotdot_escaping_relative_root() {
    let root = "./awesomeapp";
    assert!(guard_path_within_root("./awesomeapp/../etc/passwd", root, CWD).is_err());
    assert!(guard_path_within_root("./awesomeapp/a/../../secret", root, CWD).is_err());
}

#[test]
fn guard_message_names_both_normalized_paths() {
    match guard_path_within_root("/tmp/proj/../etc/passwd", "/tmp/proj/", CWD) {
        Err(Error::InvalidRecipe(m)) => assert_eq!(
            m,
            "rendered path /tmp/etc/passwd resolves outside the target /tmp/proj"
        ),
        other => panic!("unexpected {other:?}"),
    }
}

#[test]
fn normalization_folds_dots_and_clamps_at_root() {
    assert_eq!(normalize_lexically("/a/./b/../c", CWD), "/a/c");
    assert_eq!(normalize_lexically("/../../x", CWD), "/x");
    assert_eq!(normalize_lexically("proj//src/", CWD), "/home/baker/work/proj/src");
    assert_eq!(normalize_lexically("../up", CWD), "/home/baker/up");
    assert_eq!(normalize_lexically("/", CWD), "/");
}

#[test]
fn join_follows_path_buf_rules() {
    assert_eq!(join("out", "app"), "out/app");
    assert_eq!(join("out/", "app"), "out/app");
    assert_eq!(join("", "app"), "app");
    assert_eq!(join("out", "/abs"), "/abs");
}

#[test]
fn joined_descendants_pass_the_guard() {
    let root = "./awesomeapp";
    let p = join(root, "config/settings/base.py");
    assert!(guard_path_within_root(&p, root, CWD).is_ok());
}
