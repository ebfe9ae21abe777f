use grabit::env::{app_root, hands_dir, ledger_path, HandEnv};
use grabit::output::{GbOutput, GbOutputKind, GbOutputT};
use grabit::paths::{extension, file_name, file_stem, join_path};

#[test]
fn join_adds_one_separator() {
    assert_eq!(join_path("/data", "hands"), "/data/hands");
    assert_eq!(join_path("/data/", "hands"), "/data/hands");
    assert_eq!(join_path("", "hands"), "hands");
    assert_eq!(join_path("a", ""), "a/");
}

#[test]
fn join_absolute_component_replaces() {
    assert_eq!(join_path("/data", "/etc"), "/etc");
}

#[test]
fn file_name_cases() {
    assert_eq!(file_name("/a/b/c.txt"), Some("c.txt"));
    assert_eq!(file_name("c.txt"), Some("c.txt"));
    assert_eq!(file_name("foo/bar/"), Some("bar"));
    assert_eq!(file_name("foo/."), Some("foo"));
    assert_eq!(file_name("a/./"), Some("a"));
    assert_eq!(file_name("foo/.."), None);
    assert_eq!(file_name(".."), None);
    assert_eq!(file_name("/"), None);
    assert_eq!(file_name(""), None);
    assert_eq!(file_name("."), None);
    assert_eq!(file_name("//x//"), Some("x"));
}

#[test]
fn file_name_agrees_with_std() {
    for p in ["/a/b/c.txt", "foo/bar/", "foo/.", "foo/..", "/", "", ".", "a//b", "./x", "x/./.", ".hidden"] {
        let std_name = std::path::Path::new(p).file_name().and_then(|n| n.to_str());
        assert_eq!(file_name(p), std_name, "path {p:?}");
        let std_stem = std::path::Path::new(p).file_stem().and_then(|n| n.to_str());
        assert_eq!(file_stem(p), std_stem, "path {p:?}");
        let std_ext = std::path::Path::new(p).extension().and_then(|n| n.to_str());
        assert_eq!(extension(p), std_ext, "path {p:?}");
    }
}

#[test]
fn stem_and_extension_cases() {
    assert_eq!(file_stem("/x/archive.tar.gz"), Some("archive.tar"));
    assert_eq!(extension("/x/archive.tar.gz"), Some("gz"));
    assert_eq!(file_stem("/x/.bashrc"), Some(".bashrc"));
    assert_eq!(extension("/x/.bashrc"), None);
    assert_eq!(file_stem("/x/readme"), Some("readme"));
    assert_eq!(extension("/x/readme"), None);
    assert_eq!(file_stem("foo."), Some("foo"));
    assert_eq!(extension("foo."), Some(""));
    assert_eq!(file_stem("/"), None);
    assert_eq!(extension(".."), None);
}

#[test]
fn stem_dot_extension_is_name() {
    let p = "/docs/report.final.pdf";
    let name = file_name(p).unwrap();
    let joined = format!("{}.{}", file_stem(p).unwrap(), extension(p).unwrap());
    assert_eq!(name, joined);
}

#[test]
fn file_name_of_joined_component() {
    assert_eq!(file_name(&join_path("/base/dir", "item.txt")), Some("item.txt"));
    assert_eq!(file_name(&join_path("/base/dir/", "item")), Some("item"));
}

#[test]
fn hands_dir_and_ledger_path() {
    assert_eq!(hands_dir("/root"), "/root/hands");
    assert_eq!(ledger_path("/root"), "/root/ledger.json");
}

#[test]
fn hand_layout_paths() {
    let h = HandEnv::new("/root", "work");
    assert_eq!(h.name(), "work");
    assert_eq!(h.root_dir(), "/root/hands/work");
    assert_eq!(h.pocket_dir(), "/root/hands/work/pocket");
    assert_eq!(h.config_file(), "/root/hands/work/config.json");
    assert_eq!(h.db_file(), "/root/hands/work/index.db");
    assert_eq!(h.touched_file(), "/root/hands/work/.touched.json");
}

#[test]
fn hand_layout_lies_under_root() {
    let h = HandEnv::new("/r", "alpha");
    let root = h.root_dir();
    for p in [h.pocket_dir(), h.config_file(), h.db_file(), h.touched_file()] {
        assert!(p.starts_with(&format!("{root}/")));
    }
    assert!(root.starts_with(&format!("{}/", hands_dir("/r"))));
    assert_eq!(file_name(&root), Some("alpha"));
    assert_eq!(file_name(&h.pocket_dir()), Some("pocket"));
}

#[test]
fn different_hands_have_different_roots() {
    let a = HandEnv::new("/r", "one");
    let b = HandEnv::new("/r", "two");
    assert_ne!(a.root_dir(), b.root_dir());
}

#[test]
fn init_dirs_in_creation_order() {
    let h = HandEnv::new("/r", "w");
    assert_eq!(h.init_dirs(), vec!["/r/hands".to_string(), "/r/hands/w".to_string(), "/r/hands/w/pocket".to_string()]);
}

#[test]
fn init_report_is_success() {
    let r = HandEnv::init_report();
    assert_eq!(r.kind(), Some(GbOutputKind::Success));
    assert_eq!(r.message(), "The hand space was successfully initialized");
    assert!(matches!(r, GbOutput::Single(_)));
}

#[test]
fn app_root_precedence() {
    let home = Some("/h".to_string());
    let data = Some("/d".to_string());
    assert_eq!(app_root(home.clone(), data.clone()), home);
    assert_eq!(app_root(home.clone(), None), home);
    assert_eq!(app_root(None, data.clone()), data);
    assert_eq!(app_root(None, None), None);
}
