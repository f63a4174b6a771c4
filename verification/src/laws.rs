//! What holds of every tree the scan builds.
//!
//! Each proof function here states a property of any node that mirrors a
//! raw entry — that is, of any tree [`crate::scan::build`] returns — and
//! proves it by induction over the snapshot.

use vstd::prelude::*;
use crate::scan::{child_path, first_bad_time, first_bad_time_among, mirrors, times_ok};
use crate::timestamp::time_in_range;
use crate::tree::{node_wf, same_tree, stamps_wf, DirectoryInfo, RawEntry};

verus! {

/// The scan of an entry finds no failure exactly when every modification
/// time it looks at can be rendered: success is owed on precisely those
/// snapshots, whatever path the entry stands at.
pub proof fn lemma_scan_succeeds_iff_times_ok(own_path: Seq<char>, r: RawEntry)
    ensures
        first_bad_time(own_path, r) is None <==> times_ok(r),
    decreases r,
{
    if time_in_range(r.mtime_secs as int) && r.is_dir {
        lemma_scan_succeeds_iff_times_ok_among(own_path, r.children@);
    }
}

/// The scan of a listing finds no failure exactly when every entry of the
/// listing is clean throughout.
proof fn lemma_scan_succeeds_iff_times_ok_among(dir: Seq<char>, rs: Seq<RawEntry>)
    ensures
        first_bad_time_among(dir, rs) is None <==> (forall|i: int|
            0 <= i < rs.len() ==> times_ok(rs[i])),
    decreases rs,
{
    if rs.len() > 0 {
        let rest = rs.subrange(1, rs.len() as int);
        lemma_scan_succeeds_iff_times_ok(child_path(dir, rs[0].name@), rs[0]);
        lemma_scan_succeeds_iff_times_ok_among(dir, rest);
        if first_bad_time(child_path(dir, rs[0].name@), rs[0]) is Some {
            assert(!times_ok(rs[0]));
        } else if first_bad_time_among(dir, rest) is None {
            assert forall|i: int| 0 <= i < rs.len() implies times_ok(rs[i]) by {
                if i > 0 {
                    assert(rs[i] == rest[i - 1]);
                }
            }
        } else {
            let j = choose|j: int| 0 <= j < rest.len() && !times_ok(rest[j]);
            assert(rest[j] == rs[j + 1]);
            assert(!times_ok(rs[j + 1]));
        }
    }
}

/// A directory's node has exactly one child per immediate entry of the
/// directory at scan time.
pub proof fn lemma_child_count(t: DirectoryInfo, r: RawEntry)
    requires
        mirrors(t, r),
        r.is_dir,
    ensures
        t.children@.len() == r.children@.len(),
{
}

/// A file's node records, unchanged, the byte length the snapshot
/// reported for that file at scan time.
pub proof fn lemma_file_size_recorded(t: DirectoryInfo, r: RawEntry)
    requires
        mirrors(t, r),
        !r.is_dir,
    ensures
        t.meta matches Some(m) && m.spec_size() == r.size,
{
}

/// Every built tree is well formed: each node carries metadata, a node
/// flagged as a file is a leaf, and a node with children is flagged as a
/// directory.
pub proof fn lemma_scan_well_formed(t: DirectoryInfo, r: RawEntry)
    requires
        mirrors(t, r),
    ensures
        node_wf(t),
    decreases r,
{
    if r.is_dir {
        assert forall|i: int| 0 <= i < t.children@.len() implies node_wf(*t.children@[i]) by {
            lemma_scan_well_formed(*t.children@[i], r.children@[i]);
        }
    }
}

/// Scanning the same unmodified snapshot twice yields trees with
/// identical structure, names and metadata, timestamps included.
pub proof fn lemma_scan_deterministic(t1: DirectoryInfo, t2: DirectoryInfo, r: RawEntry)
    requires
        mirrors(t1, r),
        mirrors(t2, r),
    ensures
        same_tree(t1, t2),
    decreases r,
{
    if r.is_dir {
        assert forall|i: int| 0 <= i < t1.children@.len() implies same_tree(
            *t1.children@[i],
            *t2.children@[i],
        ) by {
            lemma_scan_deterministic(*t1.children@[i], *t2.children@[i], r.children@[i]);
        }
    }
}

/// Every node's rendered modification time has the fixed
/// `DD/MM/YYYY HH:MM:SS` shape: two-digit day, month, hour, minute and
/// second, four-digit year.
pub proof fn lemma_scan_timestamps_formatted(t: DirectoryInfo, r: RawEntry)
    requires
        mirrors(t, r),
    ensures
        stamps_wf(t),
    decreases r,
{
    if r.is_dir {
        assert forall|i: int| 0 <= i < t.children@.len() implies stamps_wf(*t.children@[i]) by {
            lemma_scan_timestamps_formatted(*t.children@[i], r.children@[i]);
        }
    }
}

} // verus!
