//! Checks made while moving or replacing a library: the fingerprint of every
//! library file, a staged copy that must match its source file for file, and
//! replacing a library with the same identity without dropping anything that
//! exists only at the destination.

use vstd::prelude::*;

use crate::recording_recovery::file_fingerprint;
use crate::text::{lower_hex, str_equals};
use crate::video_project::sha256_digest;

verus! {

/// Name of the identity marker file at a library's root.
pub const LIBRARY_MARKER_FILENAME: &'static str = ".kiri-library.json";

/// One manifest entry: the file's path below the library root, its length,
/// and the lowercase hexadecimal SHA-256 of its bytes.
pub type ManifestEntry = (String, u64, String);

/// The text form of a manifest entry.
pub open spec fn entry_view(entry: ManifestEntry) -> (Seq<char>, u64, Seq<char>) {
    (entry.0@, entry.1, entry.2@)
}

/// The text form of a manifest.
pub open spec fn manifest_view(manifest: Seq<ManifestEntry>) -> Seq<(Seq<char>, u64, Seq<char>)> {
    manifest.map_values(|entry: ManifestEntry| entry_view(entry))
}

/// The manifest entry of the file `name` in the library directory
/// `directory` with contents `bytes`: its path `directory/name`, its length,
/// and the lowercase hexadecimal SHA-256 of its bytes.
pub fn manifest_entry(directory: &str, name: &str, bytes: &[u8]) -> (entry: ManifestEntry)
    ensures
        entry.0@ == directory@ + "/"@ + name@,
        entry.1 == bytes@.len(),
        entry.2@ == lower_hex(sha256_digest(bytes@)),
{
    let (byte_len, sha256) = file_fingerprint(bytes);
    let mut path = String::from_str(directory);
    path.append("/");
    path.append(name);
    (path, byte_len, sha256)
}

fn same_entry(a: &ManifestEntry, b: &ManifestEntry) -> (same: bool)
    ensures
        same == (entry_view(*a) == entry_view(*b)),
{
    a.1 == b.1 && str_equals(a.0.as_str(), b.0.as_str()) && str_equals(a.2.as_str(), b.2.as_str())
}

/// Whether the staged copy's manifest equals the source's, entry by entry.
pub fn manifests_match(source: &Vec<ManifestEntry>, staged: &Vec<ManifestEntry>) -> (matching: bool)
    ensures
        matching == (manifest_view(source@) == manifest_view(staged@)),
{
    if source.len() != staged.len() {
        assert(manifest_view(source@).len() != manifest_view(staged@).len());
        return false;
    }
    let mut i: usize = 0;
    while i < source.len()
        invariant
            source@.len() == staged@.len(),
            i <= source@.len(),
            forall|k: int| 0 <= k < i ==> entry_view(#[trigger] source@[k]) == entry_view(staged@[k]),
        decreases source@.len() - i,
    {
        if !same_entry(&source[i], &staged[i]) {
            assert(manifest_view(source@)[i as int] != manifest_view(staged@)[i as int]);
            return false;
        }
        i = i + 1;
    }
    assert(manifest_view(source@) =~= manifest_view(staged@));
    true
}

/// Whether `entry` appears in `manifest`.
pub open spec fn manifest_contains(manifest: Seq<ManifestEntry>, entry: (Seq<char>, u64, Seq<char>)) -> bool {
    exists|j: int| 0 <= j < manifest.len() && entry_view(#[trigger] manifest[j]) == entry
}

/// Whether every file at the destination also exists, with the same length
/// and digest, in the source.
pub open spec fn spec_manifest_covers(source: Seq<ManifestEntry>, target: Seq<ManifestEntry>) -> bool {
    forall|i: int| 0 <= i < target.len() ==> manifest_contains(source, entry_view(#[trigger] target[i]))
}

/// Decides whether replacing the destination with the source keeps every
/// destination file: each must appear unchanged in the source manifest.
pub fn manifest_covers(source: &Vec<ManifestEntry>, target: &Vec<ManifestEntry>) -> (covered: bool)
    ensures
        covered == spec_manifest_covers(source@, target@),
{
    let mut i: usize = 0;
    while i < target.len()
        invariant
            i <= target@.len(),
            forall|k: int| 0 <= k < i ==> manifest_contains(source@, entry_view(#[trigger] target@[k])),
        decreases target@.len() - i,
    {
        let mut found = false;
        let mut j: usize = 0;
        while j < source.len() && !found
            invariant
                i < target@.len(),
                j <= source@.len(),
                !found ==> forall|k: int| 0 <= k < j ==> entry_view(#[trigger] source@[k]) != entry_view(target@[i as int]),
                found ==> manifest_contains(source@, entry_view(target@[i as int])),
            decreases source@.len() - j,
        {
            if same_entry(&source[j], &target[i]) {
                found = true;
            }
            j = j + 1;
        }
        if !found {
            assert(!manifest_contains(source@, entry_view(target@[i as int])));
            return false;
        }
        i = i + 1;
    }
    true
}

/// Whether two files with these lengths and digests hold the same bytes, as
/// far as length and SHA-256 tell.
pub fn fingerprints_identical(left_len: u64, left_sha256: &str, right_len: u64, right_sha256: &str) -> (identical: bool)
    ensures
        identical == (left_len == right_len && left_sha256@ == right_sha256@),
{
    left_len == right_len && str_equals(left_sha256, right_sha256)
}

/// The entries Kiri itself keeps at a library's root.
pub open spec fn spec_managed_root_entry(name: Seq<char>) -> bool {
    name == LIBRARY_MARKER_FILENAME@ || name == "library.json"@ || name == "Assets"@ || name == "Annotations"@
        || name == "Thumbnails"@ || name == ".DS_Store"@
}

/// Whether `name` at a library's root belongs to Kiri; a replacement target
/// holding anything else is refused.
pub fn is_managed_root_entry(name: &str) -> (managed: bool)
    ensures
        managed == spec_managed_root_entry(name@),
{
    str_equals(name, LIBRARY_MARKER_FILENAME) || str_equals(name, "library.json") || str_equals(name, "Assets")
        || str_equals(name, "Annotations") || str_equals(name, "Thumbnails") || str_equals(name, ".DS_Store")
}

} // verus!
