use dirtree::errors::ScanError;
use dirtree::scan::{build, build_tree, join_path};
use dirtree::tree::{DirectoryInfo, ItemMetaData, RawEntry};

const T1: i64 = 1_700_000_000; // 14/11/2023 22:13:20
const T2: i64 = 1_000_000_000; // 09/09/2001 01:46:40

fn file(name: &str, size: u64, mtime_secs: i64) -> RawEntry {
    RawEntry { name: name.to_string(), is_dir: false, size, mtime_secs, children: Vec::new() }
}

fn dir(name: &str, size: u64, mtime_secs: i64, children: Vec<RawEntry>) -> RawEntry {
    RawEntry { name: name.to_string(), is_dir: true, size, mtime_secs, children }
}

fn same(a: &DirectoryInfo, b: &DirectoryInfo) -> bool {
    if a.name != b.name || a.children.len() != b.children.len() {
        return false;
    }
    match (&a.meta, &b.meta) {
        (None, None) => {}
        (Some(x), Some(y)) => {
            if x.last_modify_date() != y.last_modify_date()
                || x.is_dir() != y.is_dir()
                || x.size() != y.size()
            {
                return false;
            }
        }
        _ => return false,
    }
    for i in 0..a.children.len() {
        if !same(&a.children[i], &b.children[i]) {
            return false;
        }
    }
    true
}

#[test]
fn one_file_and_one_subdirectory() {
    let raw = dir(
        "root",
        4096,
        T1,
        vec![file("a.txt", 10, T1), dir("b", 4096, T1, vec![file("c.txt", 3, T2)])],
    );
    let tree = build(&raw).unwrap();
    assert_eq!(tree.name, "root");
    let meta = tree.meta.as_ref().unwrap();
    assert!(meta.is_dir());
    assert_eq!(meta.size(), 4096);
    assert_eq!(tree.children.len(), 2);

    let a = &tree.children[0];
    assert_eq!(a.name, "a.txt");
    let am = a.meta.as_ref().unwrap();
    assert!(!am.is_dir());
    assert_eq!(am.size(), 10);
    assert_eq!(am.last_modify_date(), "14/11/2023 22:13:20");
    assert_eq!(a.children.len(), 0);

    let b = &tree.children[1];
    assert_eq!(b.name, "b");
    let bm = b.meta.as_ref().unwrap();
    assert!(bm.is_dir());
    assert_eq!(b.children.len(), 1);

    let c = &b.children[0];
    assert_eq!(c.name, "c.txt");
    let cm = c.meta.as_ref().unwrap();
    assert!(!cm.is_dir());
    assert_eq!(cm.size(), 3);
    assert_eq!(cm.last_modify_date(), "09/09/2001 01:46:40");
    assert_eq!(c.children.len(), 0);
}

#[test]
fn empty_root_directory() {
    let raw = dir("root", 64, T1, Vec::new());
    let tree = build(&raw).unwrap();
    assert_eq!(tree.name, "root");
    let meta = tree.meta.as_ref().unwrap();
    assert!(meta.is_dir());
    assert_eq!(meta.size(), 64);
    assert_eq!(meta.last_modify_date(), "14/11/2023 22:13:20");
    assert!(tree.children.is_empty());
}

#[test]
fn children_keep_listing_order() {
    let raw = dir(
        "root",
        0,
        T1,
        vec![file("z", 1, T1), file("a", 2, T1), file("m", 3, T1)],
    );
    let tree = build(&raw).unwrap();
    let names: Vec<&str> = tree.children.iter().map(|c| c.name.as_str()).collect();
    assert_eq!(names, ["z", "a", "m"]);
}

#[test]
fn unrenderable_root_time_is_fatal() {
    let raw = dir("root", 0, -1, vec![file("a.txt", 10, T1)]);
    let err = build(&raw).unwrap_err();
    assert!(matches!(&err, ScanError::TimestampOutOfRange(p) if p == "root"));
}

#[test]
fn failure_deep_in_the_tree_names_the_entry_path() {
    let raw = dir(
        "root",
        0,
        T1,
        vec![
            file("a.txt", 10, T1),
            dir("b", 0, T1, vec![file("c.txt", 3, -7)]),
        ],
    );
    let err = build(&raw).unwrap_err();
    assert!(matches!(&err, ScanError::TimestampOutOfRange(p) if p == "root/b/c.txt"));
}

#[test]
fn the_first_failure_in_listing_order_is_reported() {
    let raw = dir(
        "root",
        0,
        T1,
        vec![file("late", 1, -5), file("later", 1, -9)],
    );
    let err = build(&raw).unwrap_err();
    assert!(matches!(&err, ScanError::TimestampOutOfRange(p) if p == "root/late"));
}

#[test]
fn scanning_twice_yields_identical_trees() {
    let raw = dir(
        "root",
        4096,
        T1,
        vec![file("a.txt", 10, T2), dir("b", 4096, T1, vec![file("c.txt", 3, T1)])],
    );
    let t1 = build(&raw).unwrap();
    let t2 = build(&raw).unwrap();
    assert!(same(&t1, &t2));
}

#[test]
fn a_file_node_is_a_leaf() {
    // Even a malformed snapshot that hangs entries below a file yields a
    // leaf: a file's children are never looked at.
    let mut f = file("a.txt", 10, T1);
    f.children.push(file("ghost", 1, T1));
    let raw = dir("root", 0, T1, vec![f]);
    let tree = build(&raw).unwrap();
    assert_eq!(tree.children.len(), 1);
    assert_eq!(tree.children[0].children.len(), 0);
    assert!(!tree.children[0].meta.as_ref().unwrap().is_dir());
}

#[test]
fn build_tree_names_the_node_after_the_entry() {
    let raw = file("a.txt", 10, T1);
    let node = build_tree("root/a.txt", &raw).unwrap();
    assert_eq!(node.name, "a.txt");
}

#[test]
fn join_path_inserts_one_separator() {
    assert_eq!(join_path("root", "b"), "root/b");
    assert_eq!(join_path("", "b"), "/b");
}

#[test]
fn constructors_store_what_they_are_given() {
    let m = ItemMetaData::new(String::from("14/11/2023 22:13:20"), true, 7);
    assert_eq!(m.last_modify_date(), "14/11/2023 22:13:20");
    assert!(m.is_dir());
    assert_eq!(m.size(), 7);
    let d = DirectoryInfo::new("root", Some(m));
    assert_eq!(d.name, "root");
    assert!(d.children.is_empty());
    assert!(d.meta.unwrap().is_dir());
}
