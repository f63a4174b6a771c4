//! Building the tree from a raw snapshot.
//!
//! [`build`] turns a [`RawEntry`] snapshot into a [`DirectoryInfo`] tree,
//! depth first: each entry's node is finished — children included —
//! before its next sibling is looked at.  The first entry whose
//! modification time cannot be rendered abandons the whole build; no
//! partial tree is returned.

use vstd::prelude::*;
use vstd::string::StringExecFns;
use crate::errors::ScanError;
use crate::timestamp::{format_mtime, is_timestamp_text, time_in_range, timestamp_text};
use crate::tree::{DirectoryInfo, ItemMetaData, RawEntry};

verus! {

/// The path of an entry named `name` inside the directory at `dir`.
pub open spec fn child_path(dir: Seq<char>, name: Seq<char>) -> Seq<char> {
    dir + seq!['/'] + name
}

/// The node built from `r` mirrors it: the same name; metadata carrying
/// the directory flag, the size, and the modification time rendered as
/// text; and, for a directory, one mirroring child per raw entry, in
/// listing order.  A file's node is a leaf whatever the raw entry holds
/// as children.
pub open spec fn mirrors(t: DirectoryInfo, r: RawEntry) -> bool
    decreases r,
{
    &&& t.name@ == r.name@
    &&& (match t.meta {
        Option::Some(m) => {
            &&& m.spec_is_dir() == r.is_dir
            &&& m.spec_size() == r.size
            &&& time_in_range(r.mtime_secs as int)
            &&& m.spec_last_modified() == timestamp_text(r.mtime_secs as int)
            &&& is_timestamp_text(m.spec_last_modified())
        },
        Option::None => false,
    })
    &&& if r.is_dir {
        &&& t.children@.len() == r.children@.len()
        &&& (forall|i: int|
            0 <= i < r.children@.len() ==> mirrors(*t.children@[i], r.children@[i]))
    } else {
        t.children@.len() == 0
    }
}

/// The path of the first entry whose modification time cannot be
/// rendered, in scan order (each entry before its children, children
/// before the next sibling), for the entry at `own_path`; `None` when
/// every time under it can be rendered.  A file's children are never
/// looked at.
pub open spec fn first_bad_time(own_path: Seq<char>, r: RawEntry) -> Option<Seq<char>>
    decreases r,
{
    if !time_in_range(r.mtime_secs as int) {
        Option::Some(own_path)
    } else if r.is_dir {
        first_bad_time_among(own_path, r.children@)
    } else {
        Option::None
    }
}

/// The first unrenderable modification time among the entries `rs` of
/// the directory at `dir`, and below them.
pub open spec fn first_bad_time_among(dir: Seq<char>, rs: Seq<RawEntry>) -> Option<Seq<char>>
    decreases rs,
{
    if rs.len() == 0 {
        Option::None
    } else if first_bad_time(child_path(dir, rs[0].name@), rs[0]) is Some {
        first_bad_time(child_path(dir, rs[0].name@), rs[0])
    } else {
        first_bad_time_among(dir, rs.subrange(1, rs.len() as int))
    }
}

/// Every modification time the scan will look at — the entry's own and,
/// for a directory, those below its entries — can be rendered.
pub open spec fn times_ok(r: RawEntry) -> bool
    decreases r,
{
    &&& time_in_range(r.mtime_secs as int)
    &&& (r.is_dir ==> (forall|i: int|
        0 <= i < r.children@.len() ==> times_ok(r.children@[i])))
}

/// Join a directory path and an entry name with a separator.
pub fn join_path(dir: &str, name: &str) -> (r: String)
    ensures
        r@ == child_path(dir@, name@),
{
    let mut s = String::from_str(dir);
    s.append("/");
    s.append(name);
    proof {
        reveal_strlit("/");
        assert(seq!['/'] =~= "/"@);
        assert(s@ =~= child_path(dir@, name@));
    }
    s
}

/// Scanning a listing's tail starts where a clean prefix ends.
proof fn lemma_first_bad_time_among_split(dir: Seq<char>, rs: Seq<RawEntry>, i: int)
    requires
        0 <= i <= rs.len(),
        first_bad_time_among(dir, rs.subrange(0, i)) is None,
    ensures
        first_bad_time_among(dir, rs) == first_bad_time_among(
            dir,
            rs.subrange(i, rs.len() as int),
        ),
    decreases i,
{
    if i == 0 {
        assert(rs.subrange(0, rs.len() as int) =~= rs);
    } else {
        let pre = rs.subrange(0, i);
        assert(pre[0] == rs[0]);
        assert(first_bad_time(child_path(dir, rs[0].name@), rs[0]) is None);
        let rest = rs.subrange(1, rs.len() as int);
        assert(pre.subrange(1, pre.len() as int) =~= rest.subrange(0, i - 1));
        lemma_first_bad_time_among_split(dir, rest, i - 1);
        assert(rest.subrange(i - 1, rest.len() as int) =~= rs.subrange(i, rs.len() as int));
    }
}

/// A clean prefix stays clean when the next entry is clean too.
proof fn lemma_first_bad_time_prefix_extend(dir: Seq<char>, rs: Seq<RawEntry>, i: int)
    requires
        0 <= i < rs.len(),
        first_bad_time_among(dir, rs.subrange(0, i)) is None,
        first_bad_time(child_path(dir, rs[i].name@), rs[i]) is None,
    ensures
        first_bad_time_among(dir, rs.subrange(0, i + 1)) is None,
{
    let pre = rs.subrange(0, i + 1);
    assert(pre.subrange(0, i) =~= rs.subrange(0, i));
    lemma_first_bad_time_among_split(dir, pre, i);
    let tail = pre.subrange(i, i + 1);
    assert(tail[0] == rs[i]);
    assert(tail.subrange(1, 1) =~= Seq::<RawEntry>::empty());
    assert(first_bad_time_among(dir, tail.subrange(1, 1)) is None);
}

/// After a clean prefix, the first failure under entry `i` is the first
/// failure of the whole listing.
proof fn lemma_first_bad_time_at(dir: Seq<char>, rs: Seq<RawEntry>, i: int)
    requires
        0 <= i < rs.len(),
        first_bad_time_among(dir, rs.subrange(0, i)) is None,
        first_bad_time(child_path(dir, rs[i].name@), rs[i]) is Some,
    ensures
        first_bad_time_among(dir, rs) == first_bad_time(child_path(dir, rs[i].name@), rs[i]),
{
    lemma_first_bad_time_among_split(dir, rs, i);
    let tail = rs.subrange(i, rs.len() as int);
    assert(tail[0] == rs[i]);
}

/// Build the node of the entry `entry` standing at `own_path`, and below
/// it a node per descendant, depth first and in listing order.  The first
/// modification time that cannot be rendered abandons the build and is
/// reported with the path of its entry.
pub fn build_tree(own_path: &str, entry: &RawEntry) -> (r: Result<
    Box<DirectoryInfo>,
    ScanError,
>)
    ensures
        r is Ok <==> first_bad_time(own_path@, *entry) is None,
        (r matches Ok(t) ==> mirrors(*t, *entry)),
        (r matches Err(e) ==> (e matches ScanError::TimestampOutOfRange(p) && Option::Some(p@)
            == first_bad_time(own_path@, *entry))),
    decreases *entry,
{
    let lm = match format_mtime(entry.mtime_secs) {
        Option::Some(s) => s,
        Option::None => {
            return Result::Err(ScanError::TimestampOutOfRange(String::from_str(own_path)));
        },
    };
    if !entry.is_dir {
        let node = DirectoryInfo::new(
            entry.name.as_str(),
            Option::Some(ItemMetaData::new(lm, false, entry.size)),
        );
        Result::Ok(Box::new(node))
    } else {
        let mut node = DirectoryInfo::new(
            entry.name.as_str(),
            Option::Some(ItemMetaData::new(lm, true, entry.size)),
        );
        let mut cvec: Vec<Box<DirectoryInfo>> = Vec::new();
        let mut i: usize = 0;
        while i < entry.children.len()
            invariant
                i <= entry.children@.len(),
                cvec@.len() == i as int,
                forall|j: int| 0 <= j < i as int ==> mirrors(*cvec@[j], entry.children@[j]),
                first_bad_time_among(own_path@, entry.children@.subrange(0, i as int)) is None,
                time_in_range(entry.mtime_secs as int),
                entry.is_dir,
                node.name@ == entry.name@,
                (match node.meta {
                    Option::Some(m) => {
                        &&& m.spec_is_dir()
                        &&& m.spec_size() == entry.size
                        &&& m.spec_last_modified() == timestamp_text(entry.mtime_secs as int)
                        &&& is_timestamp_text(m.spec_last_modified())
                    },
                    Option::None => false,
                }),
            decreases entry.children@.len() - i as int,
        {
            let child = &entry.children[i];
            let cp = join_path(own_path, child.name.as_str());
            match build_tree(cp.as_str(), child) {
                Result::Ok(t) => {
                    cvec.push(t);
                    proof {
                        lemma_first_bad_time_prefix_extend(
                            own_path@,
                            entry.children@,
                            i as int,
                        );
                    }
                },
                Result::Err(e) => {
                    proof {
                        lemma_first_bad_time_at(own_path@, entry.children@, i as int);
                    }
                    return Result::Err(e);
                },
            }
            i += 1;
        }
        proof {
            assert(entry.children@.subrange(0, entry.children@.len() as int) =~= entry.children@);
        }
        node.children = cvec;
        Result::Ok(Box::new(node))
    }
}

/// Build the whole tree for the root entry.  The root node's name is the
/// root path itself, and its metadata describes the root; every failure
/// is reported with the path of the entry it struck.
pub fn build(root: &RawEntry) -> (r: Result<DirectoryInfo, ScanError>)
    ensures
        r is Ok <==> first_bad_time(root.name@, *root) is None,
        (r matches Ok(t) ==> mirrors(t, *root)),
        (r matches Err(e) ==> (e matches ScanError::TimestampOutOfRange(p) && Option::Some(p@)
            == first_bad_time(root.name@, *root))),
{
    match build_tree(root.name.as_str(), root) {
        Result::Ok(b) => Result::Ok(*b),
        Result::Err(e) => Result::Err(e),
    }
}

} // verus!
