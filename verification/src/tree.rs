//! The in-memory tree and the raw snapshot it is built from.
//!
//! A [`RawEntry`] is one filesystem entry as the caller observed it: its
//! name, directory flag, size in bytes, modification time in seconds since
//! the Unix epoch, and — for a directory — its immediate entries in the
//! order the listing returned them.  A [`DirectoryInfo`] is the node built
//! from it: the same name, the metadata with the time rendered as text,
//! and one child node per entry, in the same order.  A file's node is a
//! leaf: it never has children.

use vstd::prelude::*;
use vstd::string::StringExecFns;
use crate::timestamp::is_timestamp_text;

verus! {

/// Metadata of one filesystem entry, captured at scan time and immutable
/// afterwards: the rendered modification time, the directory flag, and
/// the size in bytes.
#[derive(Debug)]
pub struct ItemMetaData {
    item_last_modify_date: String,
    item_is_dir: bool,
    item_size: u64,
}

impl ItemMetaData {
    /// The rendered modification time.
    pub closed spec fn spec_last_modified(&self) -> Seq<char> {
        self.item_last_modify_date@
    }

    /// Whether the entry is a directory.
    pub closed spec fn spec_is_dir(&self) -> bool {
        self.item_is_dir
    }

    /// The entry's size in bytes.
    pub closed spec fn spec_size(&self) -> u64 {
        self.item_size
    }

    pub fn new(item_last_modify_date: String, item_is_dir: bool, item_size: u64) -> (r:
        ItemMetaData)
        ensures
            r.spec_last_modified() == item_last_modify_date@,
            r.spec_is_dir() == item_is_dir,
            r.spec_size() == item_size,
    {
        ItemMetaData { item_last_modify_date, item_is_dir, item_size }
    }

    pub fn last_modify_date(&self) -> (r: &String)
        ensures
            r@ == self.spec_last_modified(),
    {
        &self.item_last_modify_date
    }

    pub fn is_dir(&self) -> (r: bool)
        ensures
            r == self.spec_is_dir(),
    {
        self.item_is_dir
    }

    pub fn size(&self) -> (r: u64)
        ensures
            r == self.spec_size(),
    {
        self.item_size
    }
}

/// One node of the tree: the entry's name, its metadata, and its child
/// nodes in listing order.  The root node's name is the root path itself.
#[derive(Debug)]
pub struct DirectoryInfo {
    pub name: String,
    pub meta: Option<ItemMetaData>,
    pub children: Vec<Box<DirectoryInfo>>,
}

impl DirectoryInfo {
    /// A node with no children yet.
    pub fn new(new_child_name: &str, meta: Option<ItemMetaData>) -> (r: DirectoryInfo)
        ensures
            r.name@ == new_child_name@,
            r.meta == meta,
            r.children@.len() == 0,
    {
        DirectoryInfo { meta, name: String::from_str(new_child_name), children: Vec::new() }
    }
}

/// One filesystem entry as observed by the caller: the raw material of a
/// scan.  For a directory, `children` holds its immediate entries in the
/// order the listing returned them; for a file it is ignored.
#[derive(Debug)]
pub struct RawEntry {
    pub name: String,
    pub is_dir: bool,
    pub size: u64,
    pub mtime_secs: i64,
    pub children: Vec<RawEntry>,
}

/// Metadata equality, field by field.
pub open spec fn same_meta(a: Option<ItemMetaData>, b: Option<ItemMetaData>) -> bool {
    match (a, b) {
        (Option::None, Option::None) => true,
        (Option::Some(x), Option::Some(y)) => {
            &&& x.spec_last_modified() == y.spec_last_modified()
            &&& x.spec_is_dir() == y.spec_is_dir()
            &&& x.spec_size() == y.spec_size()
        },
        _ => false,
    }
}

/// Two trees with identical structure, names and metadata.
pub open spec fn same_tree(a: DirectoryInfo, b: DirectoryInfo) -> bool
    decreases a,
{
    &&& a.name@ == b.name@
    &&& same_meta(a.meta, b.meta)
    &&& a.children@.len() == b.children@.len()
    &&& (forall|i: int|
        0 <= i < a.children@.len() ==> same_tree(*a.children@[i], *b.children@[i]))
}

/// A well-formed node: it carries metadata, a node flagged as a file is
/// a leaf, and a node with children is flagged as a directory.
pub open spec fn node_wf(t: DirectoryInfo) -> bool
    decreases t,
{
    &&& t.meta is Some
    &&& (match t.meta {
        Option::Some(m) => {
            &&& (!m.spec_is_dir() ==> t.children@.len() == 0)
            &&& (t.children@.len() > 0 ==> m.spec_is_dir())
        },
        Option::None => false,
    })
    &&& (forall|i: int| 0 <= i < t.children@.len() ==> node_wf(*t.children@[i]))
}

/// Every node's metadata renders its modification time in the fixed
/// `DD/MM/YYYY HH:MM:SS` shape.
pub open spec fn stamps_wf(t: DirectoryInfo) -> bool
    decreases t,
{
    &&& (match t.meta {
        Option::Some(m) => is_timestamp_text(m.spec_last_modified()),
        Option::None => true,
    })
    &&& (forall|i: int| 0 <= i < t.children@.len() ==> stamps_wf(*t.children@[i]))
}

} // verus!
