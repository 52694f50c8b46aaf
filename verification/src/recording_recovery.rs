//! Decisions of the durable holding area for finished recordings that could
//! not be imported: file fingerprints, the names of recovery files, which
//! directory entries are recovery videos, and the proofs that tie a recovery
//! video to the library copy made from it.

use std::path::PathBuf;
use vstd::prelude::*;

use crate::asset::CaptureKind;
use crate::editor::{parse_uuid, uuid_digits, uuid_parse, uuid_simple};
use crate::media_import::{file_extension, path_extension};
use crate::text::{
    eq_ignore_ascii_case, equals_ignore_ascii_case, is_lower_hex_sha256, lower_hex, lower_hex_sha256, str_equals,
    to_lower_hex,
};
use crate::video_project::{sha256, sha256_digest};

verus! {

/// Version of the recovery manifest format.
pub const MANIFEST_SCHEMA_VERSION: u8 = 1;
/// Largest recovery manifest, in bytes.
pub const MAX_MANIFEST_BYTES: u64 = 65536;

/// Whether `value` is a lowercase hexadecimal SHA-256 digest.
pub fn is_sha256(value: &str) -> (valid: bool)
    ensures
        valid == is_lower_hex_sha256(vstd::utf8::encode_utf8(value@)),
{
    lower_hex_sha256(value)
}

/// The exact file Kiri was about to import from a recovery video.
#[derive(Debug, PartialEq)]
pub struct ImportedAssetProof {
    pub kind: CaptureKind,
    pub filename: String,
    pub byte_len: u64,
    pub sha256: String,
}

/// File extension of an imported asset of `kind`.
pub open spec fn spec_import_extension(kind: CaptureKind) -> Seq<char> {
    match kind {
        CaptureKind::Image => "png"@,
        CaptureKind::Video => "mp4"@,
        CaptureKind::Gif => "gif"@,
    }
}

/// The extension an imported asset of `kind` is stored with.
pub fn import_extension(kind: CaptureKind) -> (extension: &'static str)
    ensures
        extension@ == spec_import_extension(kind),
{
    match kind {
        CaptureKind::Image => "png",
        CaptureKind::Video => "mp4",
        CaptureKind::Gif => "gif",
    }
}

/// Whether a library asset of `asset_kind` whose file has `byte_len` bytes and
/// digest `sha256` is the copy that `proof` describes.
pub open spec fn spec_asset_matches_proof(imported: Option<&ImportedAssetProof>, asset_kind: CaptureKind, byte_len: u64, sha256: Seq<char>) -> bool {
    match imported {
        Some(p) => { p.kind == asset_kind && p.byte_len == byte_len && p.sha256@ == sha256 },
        None => false,
    }
}

/// Decides whether the active library owns the bytes an import was proven to
/// write, given the asset's kind and the fingerprint of its file.
pub fn asset_matches_proof(imported: Option<&ImportedAssetProof>, asset_kind: CaptureKind, byte_len: u64, sha256: &str) -> (matches: bool)
    ensures
        matches == spec_asset_matches_proof(imported, asset_kind, byte_len, sha256@),
{
    match imported {
        Some(p) => p.kind == asset_kind && p.byte_len == byte_len && str_equals(p.sha256.as_str(), sha256),
        None => false,
    }
}

/// Whether the recovery video (`byte_len`, `sha256`) is itself the imported
/// file: only a video import copies the recording unchanged.
pub open spec fn spec_recovery_matches_proof(imported: Option<&ImportedAssetProof>, byte_len: u64, sha256: Seq<char>) -> bool {
    match imported {
        Some(p) => { p.kind == CaptureKind::Video && p.byte_len == byte_len && p.sha256@ == sha256 },
        None => false,
    }
}

/// Decides whether the recovery video is the file the proof describes.
pub fn recovery_matches_proof(imported: Option<&ImportedAssetProof>, byte_len: u64, sha256: &str) -> (matches: bool)
    ensures
        matches == spec_recovery_matches_proof(imported, byte_len, sha256@),
{
    match imported {
        Some(p) => p.kind == CaptureKind::Video && p.byte_len == byte_len && str_equals(p.sha256.as_str(), sha256),
        None => false,
    }
}

#[verifier::external_type_specification]
#[verifier::external_body]
pub struct ExPathBuf(PathBuf);

/// The holding area below `root`, where recordings wait for a retried import.
pub struct RecordingRecoveryStore {
    root: PathBuf,
}

impl RecordingRecoveryStore {
    /// The directory holding the recovery files.
    pub closed spec fn spec_root(&self) -> PathBuf {
        self.root
    }

    /// A store keeping its recordings in `root`.
    pub fn new(root: PathBuf) -> (store: Self)
        ensures
            store.spec_root() == root,
    {
        RecordingRecoveryStore { root }
    }

    /// The directory holding the recovery files.
    pub fn root(&self) -> (root: &PathBuf)
        ensures
            *root == self.spec_root(),
    {
        &self.root
    }
}

/// The fingerprint of a file's bytes: its length and the lowercase
/// hexadecimal SHA-256 of its contents.
pub fn file_fingerprint(bytes: &[u8]) -> (fingerprint: (u64, String))
    ensures
        fingerprint.0 == bytes@.len(),
        fingerprint.1@ == lower_hex(sha256_digest(bytes@)),
{
    let digest = sha256(bytes);
    (bytes.len() as u64, to_lower_hex(digest.as_slice()))
}

/// The recording id a file stem names: the stem must parse as an id and be
/// exactly that id's simple form (32 lowercase hexadecimal digits).
pub open spec fn spec_recovery_id_from_stem(stem: Seq<char>) -> Option<u128> {
    match uuid_parse(stem) {
        Some(id) => if stem == uuid_digits(id) { Some(id) } else { None },
        None => None,
    }
}

/// The recording id named by the file stem `stem`, when the stem is the
/// id's canonical simple form.
pub fn recovery_id_from_stem(stem: &str) -> (id: Option<u128>)
    ensures
        id == spec_recovery_id_from_stem(stem@),
{
    match parse_uuid(stem) {
        Some(id) => {
            let simple = uuid_simple(id);
            if str_equals(stem, simple.as_str()) {
                Some(id)
            } else {
                None
            }
        },
        None => None,
    }
}

/// The name of a recovery file of recording `id` with extension `extension`.
pub open spec fn recovery_file_name(id: u128, extension: Seq<char>) -> Seq<char> {
    uuid_digits(id) + "."@ + extension
}

/// The name of the recovery video of recording `id`.
pub fn recovery_video_name(id: u128) -> (name: String)
    ensures
        name@ == recovery_file_name(id, "mp4"@),
{
    let mut name = uuid_simple(id);
    name.append(".mp4");
    proof {
        reveal_strlit(".mp4");
        reveal_strlit(".");
        reveal_strlit("mp4");
        assert(name@ =~= recovery_file_name(id, "mp4"@));
    }
    name
}

/// The name of the recovery manifest of recording `id`.
pub fn recovery_manifest_name(id: u128) -> (name: String)
    ensures
        name@ == recovery_file_name(id, "json"@),
{
    let mut name = uuid_simple(id);
    name.append(".json");
    proof {
        reveal_strlit(".json");
        reveal_strlit(".");
        reveal_strlit("json");
        assert(name@ =~= recovery_file_name(id, "json"@));
    }
    name
}

/// Which entry of the recovery directory is a recording: an MP4 (in any
/// case) that is a non-empty regular file and whose stem names an id in
/// simple form. The id, or none for any other entry.
pub open spec fn spec_recovery_candidate(
    extension: Option<Seq<char>>,
    is_regular_file: bool,
    byte_len: u64,
    stem: Option<Seq<char>>,
) -> Option<u128> {
    match extension {
        Some(e) => if !eq_ignore_ascii_case(e, "mp4"@) || !is_regular_file || byte_len == 0 {
            None
        } else {
            match stem {
                Some(s) => spec_recovery_id_from_stem(s),
                None => None,
            }
        },
        None => None,
    }
}

/// The recording a directory entry holds, from its extension, type, length
/// and stem.
pub fn recovery_candidate(extension: Option<&str>, is_regular_file: bool, byte_len: u64, stem: Option<&str>) -> (id: Option<u128>)
    ensures
        id == spec_recovery_candidate(
            match extension {
                Some(e) => Some(e@),
                None => None,
            },
            is_regular_file,
            byte_len,
            match stem {
                Some(s) => Some(s@),
                None => None,
            },
        ),
{
    match extension {
        Some(e) => {
            if !equals_ignore_ascii_case(e, "mp4") || !is_regular_file || byte_len == 0 {
                return None;
            }
            match stem {
                Some(s) => recovery_id_from_stem(s),
                None => None,
            }
        },
        None => None,
    }
}

/// Whether a stored manifest still describes the video found in the
/// directory: same file name and same length. Otherwise the entry is listed
/// from a fresh fingerprint of the video.
pub fn manifest_describes_video(manifest_filename: &str, manifest_byte_len: u64, file_name: &str, byte_len: u64) -> (describes: bool)
    ensures
        describes == (manifest_filename@ == file_name@ && manifest_byte_len == byte_len),
{
    manifest_byte_len == byte_len && str_equals(manifest_filename, file_name)
}

/// Whether the import proof of a manifest is usable: its file name is one the
/// library accepts (`filename_safe`) and carries the extension of its kind in
/// any case, and it records a non-empty file and a lowercase SHA-256.
pub open spec fn spec_proof_valid(proof: &ImportedAssetProof, filename_safe: bool) -> bool {
    &&& filename_safe
    &&& match path_extension(proof.filename@) {
        Some(e) => eq_ignore_ascii_case(e, spec_import_extension(proof.kind)),
        None => false,
    }
    &&& proof.byte_len != 0
    &&& is_lower_hex_sha256(vstd::utf8::encode_utf8(proof.sha256@))
}

/// Checks an import proof read from a manifest.
pub fn proof_valid(proof: &ImportedAssetProof, filename_safe: bool) -> (valid: bool)
    ensures
        valid == spec_proof_valid(proof, filename_safe),
{
    if !filename_safe || proof.byte_len == 0 || !is_sha256(proof.sha256.as_str()) {
        return false;
    }
    match file_extension(proof.filename.as_str()) {
        Some(e) => equals_ignore_ascii_case(e.as_str(), import_extension(proof.kind)),
        None => false,
    }
}

/// The recording a stored manifest describes, from the fields that are not
/// floating point: the id it names (`id_text`, as `uuid::Uuid` parses it), the
/// schema version, the video and manifest file names, which must be the
/// id's recovery files, non-negative pixel sizes, a non-empty video with a
/// lowercase SHA-256, a usable import proof if there is one
/// (`proof_filename_safe` tells whether the library accepts its file name),
/// and a proof whenever the import is marked done.
pub open spec fn spec_check_manifest(
    id_text: Seq<char>,
    schema_version: u8,
    filename: Seq<char>,
    manifest_name: Option<Seq<char>>,
    pixel_width: i64,
    pixel_height: i64,
    byte_len: u64,
    sha256: Seq<char>,
    imported: bool,
    imported_asset: Option<&ImportedAssetProof>,
    proof_filename_safe: bool,
) -> Option<u128> {
    match uuid_parse(id_text) {
        Some(id) => if schema_version == MANIFEST_SCHEMA_VERSION && filename == recovery_file_name(id, "mp4"@)
            && manifest_name == Some(recovery_file_name(id, "json"@)) && pixel_width >= 0 && pixel_height >= 0
            && byte_len != 0 && is_lower_hex_sha256(vstd::utf8::encode_utf8(sha256)) && match imported_asset {
            Some(p) => spec_proof_valid(p, proof_filename_safe),
            None => !imported,
        } {
            Some(id)
        } else {
            None
        },
        None => None,
    }
}

/// Checks the fields of a stored manifest that are not floating point and
/// gives the id of the recording it describes.
pub fn check_manifest(
    id_text: &str,
    schema_version: u8,
    filename: &str,
    manifest_name: Option<&str>,
    pixel_width: i64,
    pixel_height: i64,
    byte_len: u64,
    sha256: &str,
    imported: bool,
    imported_asset: Option<&ImportedAssetProof>,
    proof_filename_safe: bool,
) -> (id: Result<u128, InvalidManifest>)
    ensures
        match spec_check_manifest(
            id_text@,
            schema_version,
            filename@,
            match manifest_name {
                Some(n) => Some(n@),
                None => None,
            },
            pixel_width,
            pixel_height,
            byte_len,
            sha256@,
            imported,
            imported_asset,
            proof_filename_safe,
        ) {
            Some(expected) => id == Ok::<u128, InvalidManifest>(expected),
            None => id == Err::<u128, InvalidManifest>(InvalidManifest),
        },
{
    let id = match parse_uuid(id_text) {
        Some(id) => id,
        None => return Err(InvalidManifest),
    };
    let video_name = recovery_video_name(id);
    let expected_manifest = recovery_manifest_name(id);
    let manifest_ok = match manifest_name {
        Some(n) => str_equals(n, expected_manifest.as_str()),
        None => false,
    };
    let proof_ok = match imported_asset {
        Some(p) => proof_valid(p, proof_filename_safe),
        None => !imported,
    };
    if schema_version == MANIFEST_SCHEMA_VERSION && str_equals(filename, video_name.as_str()) && manifest_ok
        && pixel_width >= 0 && pixel_height >= 0 && byte_len != 0 && is_sha256(sha256) && proof_ok {
        Ok(id)
    } else {
        Err(InvalidManifest)
    }
}

/// How an entry of the recovery directory is listed.
#[derive(Debug, Clone, Copy, PartialEq, Eq, Structural)]
pub enum RecoveryListing {
    /// The entry is not a recording.
    Skip,
    /// Recording `0`, listed from its stored manifest.
    FromManifest(u128),
    /// Recording `0`, listed from a fresh fingerprint of its video.
    FromFingerprint(u128),
}

/// The listing of a directory entry with this extension, type, length, stem
/// and file name, given the valid manifest stored for its recording (its
/// file name and length), if any: a recording is listed from its manifest
/// when that still describes the video, and from a fresh fingerprint
/// otherwise.
pub open spec fn spec_recovery_listing(
    extension: Option<Seq<char>>,
    is_regular_file: bool,
    byte_len: u64,
    stem: Option<Seq<char>>,
    file_name: Seq<char>,
    manifest: Option<(Seq<char>, u64)>,
) -> RecoveryListing {
    match spec_recovery_candidate(extension, is_regular_file, byte_len, stem) {
        None => RecoveryListing::Skip,
        Some(id) => match manifest {
            Some((name, len)) => if name == file_name && len == byte_len {
                RecoveryListing::FromManifest(id)
            } else {
                RecoveryListing::FromFingerprint(id)
            },
            None => RecoveryListing::FromFingerprint(id),
        },
    }
}

/// Decides how one entry of the recovery directory is listed.
pub fn recovery_listing(
    extension: Option<&str>,
    is_regular_file: bool,
    byte_len: u64,
    stem: Option<&str>,
    file_name: &str,
    manifest: Option<(&str, u64)>,
) -> (listing: RecoveryListing)
    ensures
        listing == spec_recovery_listing(
            match extension {
                Some(e) => Some(e@),
                None => None,
            },
            is_regular_file,
            byte_len,
            match stem {
                Some(s) => Some(s@),
                None => None,
            },
            file_name@,
            match manifest {
                Some((name, len)) => Some((name@, len)),
                None => None,
            },
        ),
{
    match recovery_candidate(extension, is_regular_file, byte_len, stem) {
        None => RecoveryListing::Skip,
        Some(id) => match manifest {
            Some((name, len)) => if manifest_describes_video(name, len, file_name, byte_len) {
                RecoveryListing::FromManifest(id)
            } else {
                RecoveryListing::FromFingerprint(id)
            },
            None => RecoveryListing::FromFingerprint(id),
        },
    }
}

/// A recording found without a usable manifest, described by its video file.
pub struct RecoveredVideo {
    pub id: u128,
    pub filename: String,
    pub byte_len: u64,
    pub sha256: String,
}

/// The description of recording `id` whose video `file_name` holds `bytes`:
/// its name, length and lowercase hexadecimal SHA-256.
pub fn recovered_video(id: u128, file_name: &str, bytes: &[u8]) -> (video: RecoveredVideo)
    ensures
        video.id == id,
        video.filename@ == file_name@,
        video.byte_len == bytes@.len(),
        video.sha256@ == lower_hex(sha256_digest(bytes@)),
{
    let (byte_len, sha256) = file_fingerprint(bytes);
    RecoveredVideo { id, filename: String::from_str(file_name), byte_len, sha256 }
}

/// Whether the recovery video found on disk is still the one the manifest
/// describes: a regular file of the recorded length and digest.
pub fn recovery_video_intact(
    is_regular_file: bool,
    byte_len: u64,
    sha256: &str,
    expected_byte_len: u64,
    expected_sha256: &str,
) -> (intact: bool)
    ensures
        intact == (is_regular_file && byte_len == expected_byte_len && sha256@ == expected_sha256@),
{
    is_regular_file && byte_len == expected_byte_len && str_equals(sha256, expected_sha256)
}

/// Why a recovery manifest or video cannot be used.
#[derive(Debug, Clone, Copy, PartialEq, Eq, Structural)]
pub struct InvalidManifest;

/// The proof recorded before importing: the import of `kind` written from a
/// file with fingerprint (`byte_len`, `sha256`), under the recording's simple
/// id and the kind's extension. A video import must be the recovery video
/// itself (`video_byte_len`, `video_sha256`).
pub open spec fn spec_import_proof(
    id: u128,
    kind: CaptureKind,
    byte_len: u64,
    sha256: Seq<char>,
    video_byte_len: u64,
    video_sha256: Seq<char>,
) -> Option<(CaptureKind, Seq<char>, u64, Seq<char>)> {
    if kind == CaptureKind::Video && (byte_len != video_byte_len || sha256 != video_sha256) {
        None
    } else {
        Some((kind, recovery_file_name(id, spec_import_extension(kind)), byte_len, sha256))
    }
}

/// The proof an import of `kind` from a file with fingerprint (`byte_len`,
/// `sha256`) records for recording `id`, whose video has fingerprint
/// (`video_byte_len`, `video_sha256`).
pub fn import_proof(
    id: u128,
    kind: CaptureKind,
    byte_len: u64,
    sha256: String,
    video_byte_len: u64,
    video_sha256: &str,
) -> (proof: Result<ImportedAssetProof, InvalidManifest>)
    ensures
        match spec_import_proof(id, kind, byte_len, sha256@, video_byte_len, video_sha256@) {
            Some((k, filename, len, digest)) => proof matches Ok(p) && p.kind == k && p.filename@ == filename
                && p.byte_len == len && p.sha256@ == digest,
            None => proof == Err::<ImportedAssetProof, InvalidManifest>(InvalidManifest),
        },
{
    if kind == CaptureKind::Video && (byte_len != video_byte_len || !str_equals(sha256.as_str(), video_sha256)) {
        return Err(InvalidManifest);
    }
    let mut filename = uuid_simple(id);
    filename.append(".");
    filename.append(import_extension(kind));
    Ok(ImportedAssetProof { kind, filename, byte_len, sha256 })
}

} // verus!
