//! Which directories a scan reports, and the progress lines it writes.

use vstd::prelude::*;
use crate::popup::texts_view;
use crate::text::{contains_seq, contains_text, copy_texts, decimal, decimal_of, text_eq};

verus! {

/// A directory entry met while walking a scan root.
pub struct WalkEntry {
    /// The last component of the entry's path.
    pub name: String,
    /// The entry's full path as displayed.
    pub path: String,
    pub is_dir: bool,
}

/// The catalog of directory names that toolchains use for build output.
pub open spec fn is_catalog_name(n: Seq<char>) -> bool {
    n == "target"@ || n == "build"@ || n == ".build"@ || n == "cmake-build-debug"@
        || n == "cmake-build-release"@ || n == "Debug"@ || n == "Release"@
        || n == "node_modules"@ || n == "dist"@ || n == ".next"@ || n == ".parcel-cache"@
        || n == ".cache"@ || n == "__pycache__"@ || n == ".eggs"@ || n == "eggs"@
        || n == ".gradle"@ || n == "vendor"@ || n == ".bundle"@ || n == "out"@
        || n == ".output"@ || n == ".nyc_output"@
}

/// Some excluded text occurs in `path`.
pub open spec fn excluded_by(path: Seq<char>, excluded: Seq<Seq<char>>) -> bool {
    exists|i: int| 0 <= i < excluded.len() && contains_seq(path, #[trigger] excluded[i])
}

/// An entry is reported when it is a directory with a catalog name whose
/// path holds none of the excluded texts.
pub open spec fn reported(name: Seq<char>, path: Seq<char>, is_dir: bool, excluded: Seq<Seq<char>>) -> bool {
    is_dir && is_catalog_name(name) && !excluded_by(path, excluded)
}

pub open spec fn entry_reported(e: WalkEntry, excluded: Seq<Seq<char>>) -> bool {
    reported(e.name@, e.path@, e.is_dir, excluded)
}

/// The paths that a walk over `entries` reports, in walk order.
pub open spec fn reported_paths(entries: Seq<WalkEntry>, excluded: Seq<Seq<char>>) -> Seq<Seq<char>>
    decreases entries.len(),
{
    if entries.len() == 0 {
        Seq::empty()
    } else {
        let rest = reported_paths(entries.drop_last(), excluded);
        let e = entries.last();
        if entry_reported(e, excluded) {
            rest.push(e.path@)
        } else {
            rest
        }
    }
}

/// Whether `name` is in the catalog of build-output directory names.
pub fn is_catalog_dir_name(name: &str) -> (r: bool)
    ensures
        r == is_catalog_name(name@),
{
    text_eq(name, "target") || text_eq(name, "build") || text_eq(name, ".build")
        || text_eq(name, "cmake-build-debug") || text_eq(name, "cmake-build-release")
        || text_eq(name, "Debug") || text_eq(name, "Release") || text_eq(name, "node_modules")
        || text_eq(name, "dist") || text_eq(name, ".next") || text_eq(name, ".parcel-cache")
        || text_eq(name, ".cache") || text_eq(name, "__pycache__") || text_eq(name, ".eggs")
        || text_eq(name, "eggs") || text_eq(name, ".gradle") || text_eq(name, "vendor")
        || text_eq(name, ".bundle") || text_eq(name, "out") || text_eq(name, ".output")
        || text_eq(name, ".nyc_output")
}

/// Whether any of the excluded texts occurs in `path`.
pub fn is_excluded(path: &str, excluded: &Vec<String>) -> (r: bool)
    ensures
        r == excluded_by(path@, texts_view(*excluded)),
{
    let mut i: usize = 0;
    while i < excluded.len()
        invariant
            i <= excluded.len(),
            forall|j: int| 0 <= j < i ==> !contains_seq(path@, #[trigger] texts_view(*excluded)[j]),
        decreases excluded.len() - i,
    {
        if contains_text(path, excluded[i].as_str()) {
            assert(contains_seq(path@, texts_view(*excluded)[i as int]));
            return true;
        }
        i = i + 1;
    }
    false
}

/// Whether a walk reports this entry as an artifact directory.
pub fn is_artifact_entry(entry: &WalkEntry, excluded: &Vec<String>) -> (r: bool)
    ensures
        r == entry_reported(*entry, texts_view(*excluded)),
{
    entry.is_dir && is_catalog_dir_name(entry.name.as_str()) && !is_excluded(
        entry.path.as_str(),
        excluded,
    )
}

/// The paths of the entries that a scan reports, in walk order.
pub fn select_artifacts(entries: &Vec<WalkEntry>, excluded: &Vec<String>) -> (r: Vec<String>)
    ensures
        texts_view(r) == reported_paths(entries@, texts_view(*excluded)),
{
    let mut out: Vec<String> = Vec::new();
    let mut i: usize = 0;
    while i < entries.len()
        invariant
            i <= entries.len(),
            texts_view(out) == reported_paths(entries@.subrange(0, i as int), texts_view(*excluded)),
        decreases entries.len() - i,
    {
        let e = &entries[i];
        proof {
            assert(entries@.subrange(0, i + 1).drop_last() =~= entries@.subrange(0, i as int));
        }
        if is_artifact_entry(e, excluded) {
            let p = e.path.clone();
            out.push(p);
            assert(texts_view(out) =~= reported_paths(entries@.subrange(0, i + 1), texts_view(*excluded)));
        } else {
            assert(texts_view(out) =~= reported_paths(entries@.subrange(0, i + 1), texts_view(*excluded)));
        }
        i = i + 1;
    }
    assert(entries@.subrange(0, entries@.len() as int) =~= entries@);
    out
}

/// The roots that a scan walks: the configured ones, or the current
/// directory when none is configured.
pub fn scan_roots(scan_paths: &Vec<String>) -> (r: Vec<String>)
    ensures
        scan_paths@.len() > 0 ==> r@ == scan_paths@,
        scan_paths@.len() == 0 ==> texts_view(r) == seq!["."@],
{
    if scan_paths.len() == 0 {
        let mut r: Vec<String> = Vec::new();
        r.push(String::from_str("."));
        assert(texts_view(r) =~= seq!["."@]);
        r
    } else {
        copy_texts(scan_paths)
    }
}

/// The log line that opens a scan.
pub fn scan_started_line() -> (r: String)
    ensures
        r@ == "Starting scan..."@,
{
    String::from_str("Starting scan...")
}

pub open spec fn root_started_text(root: Seq<char>) -> Seq<char> {
    "Scanning path: "@ + root
}

pub open spec fn root_done_text(root: Seq<char>, count: nat) -> Seq<char> {
    "Scan complete for "@ + root + ". Found "@ + decimal_of(count) + " artifacts."@
}

pub open spec fn total_done_text(count: nat) -> Seq<char> {
    "Total scan complete. Found "@ + decimal_of(count) + " artifacts."@
}

/// The log line written when the walk of one root begins.
pub fn root_started_line(root: &str) -> (r: String)
    ensures
        r@ == root_started_text(root@),
{
    let mut s = String::from_str("Scanning path: ");
    s.append(root);
    s
}

/// The log line written when the walk of one root has found `count` artifacts.
pub fn root_done_line(root: &str, count: usize) -> (r: String)
    ensures
        r@ == root_done_text(root@, count as nat),
{
    let mut s = String::from_str("Scan complete for ");
    s.append(root);
    s.append(". Found ");
    let d = decimal(count);
    s.append(d.as_str());
    s.append(" artifacts.");
    s
}

/// The log line written when every root has been walked.
pub fn total_done_line(count: usize) -> (r: String)
    ensures
        r@ == total_done_text(count as nat),
{
    let mut s = String::from_str("Total scan complete. Found ");
    let d = decimal(count);
    s.append(d.as_str());
    s.append(" artifacts.");
    s
}

/// A path that is on the exclusion list is never reported by a scan,
/// whatever the walk meets.
pub proof fn lemma_excluded_path_never_reported(
    entries: Seq<WalkEntry>,
    excluded: Seq<Seq<char>>,
    p: Seq<char>,
)
    requires
        excluded.contains(p),
    ensures
        !reported_paths(entries, excluded).contains(p),
    decreases entries.len(),
{
    if entries.len() > 0 {
        lemma_excluded_path_never_reported(entries.drop_last(), excluded, p);
        let e = entries.last();
        if entry_reported(e, excluded) && e.path@ == p {
            let k = choose|k: int| 0 <= k < excluded.len() && excluded[k] == p;
            assert(p.subrange(0, 0 + excluded[k].len() as int) =~= excluded[k]);
            assert(contains_seq(p, excluded[k]));
            assert(excluded_by(p, excluded));
        }
    }
}

/// Once no excluded text occurs in a path, a walk that meets it as a
/// directory with a catalog name reports it again.
pub proof fn lemma_unexcluded_path_reported(
    entries: Seq<WalkEntry>,
    excluded: Seq<Seq<char>>,
    k: int,
)
    requires
        0 <= k < entries.len(),
        entries[k].is_dir,
        is_catalog_name(entries[k].name@),
        !excluded_by(entries[k].path@, excluded),
    ensures
        reported_paths(entries, excluded).contains(entries[k].path@),
    decreases entries.len(),
{
    let rest = reported_paths(entries.drop_last(), excluded);
    if k == entries.len() - 1 {
        assert(reported_paths(entries, excluded).last() == entries[k].path@);
    } else {
        lemma_unexcluded_path_reported(entries.drop_last(), excluded, k);
        let i = choose|i: int| 0 <= i < rest.len() && rest[i] == entries[k].path@;
        assert(reported_paths(entries, excluded)[i] == entries[k].path@);
    }
}

} // verus!
