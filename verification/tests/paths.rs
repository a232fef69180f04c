use penview::paths::get_relative_path_under_cwd;
use penview::paths::is_child_path;
use penview::paths::join_and_canonicalize;
use penview::paths::parent_dir;
use penview::paths::resolve_image_path;
use penview::paths::truncate_cwd;

#[test]
fn test_rel_to_abspath() {
    let current_file = "/home/user/Notes/slipbox/networking/dns.md";
    assert_eq!(
        join_and_canonicalize("../linux.md", current_file).unwrap(),
        "/home/user/Notes/slipbox/linux.md"
    );

    // If passed a directory, the link resolves one level too high, as the
    // base's last segment is always taken for a file name.
    let current_dir = "/home/user/Notes/slipbox/networking";
    assert_eq!(
        join_and_canonicalize("../linux.md", current_dir).unwrap(),
        "/home/user/Notes/linux.md"
    );

    // Relative bases stay relative.
    assert_eq!(
        join_and_canonicalize("../linux.md", "./networking/dns.md").unwrap(),
        "linux.md"
    );
}

#[test]
fn test_is_child_path() {
    let current_file = "/home/user/Notes/slipbox/";
    let file = "/home/user/Notes/slipbox/child.md";
    assert_eq!(is_child_path(current_file, file), true);

    let current_file = "/home/user/Notes/slipbox/";
    let file = "/home/user/Notes/not_child.md";
    assert_ne!(is_child_path(current_file, file), true);
}

#[test]
fn test_truncate_cwd() {
    assert_eq!(
        truncate_cwd("/work/file.md", "/work"),
        Some(String::from("file.md"))
    );
    assert_eq!(
        truncate_cwd("/work/foo/bar/baz/file.md", "/work"),
        Some(String::from("foo/bar/baz/file.md"))
    );
    assert_eq!(truncate_cwd("/elsewhere/file.md", "/work"), None);
}

#[test]
fn test_get_relative_path_under_cwd() {
    assert_eq!(
        get_relative_path_under_cwd(String::from("/work/child_file"), "/work"),
        Some(String::from("child_file"))
    );
    assert_eq!(
        get_relative_path_under_cwd(String::from("/other/file"), "/work"),
        Some(String::from("/other/file"))
    );
}

#[test]
fn dotdot_past_root_is_dropped() {
    assert_eq!(
        join_and_canonicalize("../../../../x.md", "/a/b.md").unwrap(),
        "/x.md"
    );
    assert_eq!(join_and_canonicalize("../x.md", "a.md").unwrap(), "x.md");
}

#[test]
fn dot_segments_are_dropped() {
    assert_eq!(
        join_and_canonicalize("./x/./y.md", "/a/b/c.md").unwrap(),
        "/a/b/x/y.md"
    );
}

#[test]
fn no_parent_is_an_error() {
    assert!(join_and_canonicalize("x.md", "/").is_err());
    assert!(join_and_canonicalize("x.md", "").is_err());
}

#[test]
fn absolute_destination_replaces_base() {
    assert_eq!(
        join_and_canonicalize("/abs/x.md", "/a/b/c.md").unwrap(),
        "/abs/x.md"
    );
}

#[test]
fn parent_dir_of_document() {
    assert_eq!(parent_dir("/a/b/c.md"), "/a/b");
    assert_eq!(parent_dir("c.md"), "");
    assert_eq!(parent_dir("/"), "");
}

#[test]
fn image_paths_resolve_against_base_dir() {
    assert_eq!(resolve_image_path("pic.png", "/a/b"), "/a/b/pic.png");
    assert_eq!(resolve_image_path("/abs/pic.png", "/a/b"), "/abs/pic.png");
    assert_eq!(resolve_image_path("pic.png", ""), "pic.png");
}
