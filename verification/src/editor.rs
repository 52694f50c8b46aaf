//! Decisions of the screenshot editor commands and of frontend diagnostics.

use vstd::prelude::*;

use crate::capture::{spec_validate_capture_png, validate_capture_png};
use crate::ocr_provider::is_hyphenated_uuid;
use crate::text::{
    hex_digit, hex_digit_char,
    char_utf8_len, chars_of, has_prefix, is_control, is_lower_hex_sha256, lower_hex_sha256, push_char,
    spec_char_utf8_len, spec_has_prefix, spec_is_control, str_equals, string_from_chars, utf8_len,
    lemma_utf8_len_prefix_monotone,
};

verus! {

broadcast use vstd::string::group_string_axioms;

/// Message for a save action that does not match its destination.
pub const EDITOR_ACTION_INVALID_ERROR: &'static str = "The editor save action is invalid.";
/// Message for an edited image that could not be written to its file.
pub const EDITOR_SAVE_ERROR: &'static str = "The edited image could not be saved to the selected file.";
/// Message for an image that changed after the editor opened it.
pub const EDITOR_REVISION_MISMATCH_ERROR: &'static str = "The screenshot changed after the editor opened.";

/// Where a saved edit goes: back over the library copy, or to a file chosen
/// in a native save panel.
#[derive(Debug, Clone, Copy, PartialEq, Eq, Structural)]
pub enum EditorSaveAction {
    Save,
    SaveAs,
}

/// `"save"` needs no native destination token, `"save-as"` needs one;
/// anything else is invalid.
pub open spec fn spec_editor_save_action(value: Option<Seq<char>>, has_save_token: bool) -> Option<EditorSaveAction> {
    match value {
        Some(v) => if v == "save"@ && !has_save_token {
            Some(EditorSaveAction::Save)
        } else if v == "save-as"@ && has_save_token {
            Some(EditorSaveAction::SaveAs)
        } else {
            None
        },
        None => None,
    }
}

/// Parses the editor's save action and checks it against the presence of an
/// approved native destination.
pub fn parse_editor_save_action(value: Option<&str>, has_save_token: bool) -> (action: Result<EditorSaveAction, String>)
    ensures
        match spec_editor_save_action(
            match value { Some(v) => Some(v@), None => None },
            has_save_token,
        ) {
            Some(expected) => action == Ok::<EditorSaveAction, String>(expected),
            None => action matches Err(message) && message@ == EDITOR_ACTION_INVALID_ERROR@,
        },
{
    match value {
        Some(v) => {
            if str_equals(v, "save") && !has_save_token {
                Ok(EditorSaveAction::Save)
            } else if str_equals(v, "save-as") && has_save_token {
                Ok(EditorSaveAction::SaveAs)
            } else {
                Err(String::from_str(EDITOR_ACTION_INVALID_ERROR))
            }
        },
        None => Err(String::from_str(EDITOR_ACTION_INVALID_ERROR)),
    }
}

/// Whether `value` names an annotation revision: a lowercase hexadecimal
/// SHA-256 digest.
pub fn is_annotation_revision(value: &str) -> (valid: bool)
    ensures
        valid == is_lower_hex_sha256(vstd::utf8::encode_utf8(value@)),
{
    lower_hex_sha256(value)
}

/// Runs `mutation`; only when it succeeds is `committed_action` run, and its
/// outcome is reported beside the mutation's value.
pub fn commit_editor_update<T, E, M: FnOnce() -> Result<T, E>, A: FnOnce() -> bool>(
    mutation: M,
    committed_action: A,
) -> (result: Result<(T, bool), E>)
    requires
        mutation.requires(()),
        committed_action.requires(()),
    ensures
        exists|outcome: Result<T, E>| #![trigger mutation.ensures((), outcome)]
            mutation.ensures((), outcome) && match outcome {
                Ok(value) => exists|succeeded: bool| #![trigger committed_action.ensures((), succeeded)]
                    committed_action.ensures((), succeeded) && result == Ok::<(T, bool), E>((value, succeeded)),
                Err(error) => result == Err::<(T, bool), E>(error),
            },
{
    match mutation() {
        Ok(revision) => {
            let succeeded = committed_action();
            Ok((revision, succeeded))
        },
        Err(error) => Err(error),
    }
}

/// Longest UTF-8 byte length of a frontend log line.
pub const MAX_FRONTEND_LOG_BYTES: usize = 4096;

/// A control character becomes a space, so a log entry stays on one line.
pub open spec fn single_line_char(c: char) -> char {
    if spec_is_control(c) { ' ' } else { c }
}

/// The message with every control character replaced by a space.
pub open spec fn single_line(message: Seq<char>) -> Seq<char> {
    message.map_values(|c: char| single_line_char(c))
}

/// Makes a frontend error message safe to log: control characters become
/// spaces and the result is the longest prefix that fits in 4 KiB of UTF-8.
pub fn sanitize_frontend_log(message: String) -> (sanitized: String)
    ensures
        exists|k: int| #![trigger single_line(message@).take(k)]
            0 <= k <= message@.len() && sanitized@ == single_line(message@).take(k)
                && utf8_len(sanitized@) <= MAX_FRONTEND_LOG_BYTES
                && (k < message@.len() ==> utf8_len(single_line(message@).take(k + 1)) > MAX_FRONTEND_LOG_BYTES),
{
    let ghost mapped = single_line(message@);
    let mut sanitized = String::new();
    let mut used: usize = 0;
    let mut count: usize = 0;
    let mut full = false;
    for character in iter: message.as_str().chars()
        invariant
            iter.seq() == message@,
            mapped == single_line(message@),
            count <= iter.index(),
            full ==> count < message@.len(),
            !full ==> count == iter.index(),
            sanitized@ == mapped.take(count as int),
            used == utf8_len(sanitized@),
            used <= MAX_FRONTEND_LOG_BYTES,
            count <= used,
            full ==> utf8_len(mapped.take(count + 1)) > MAX_FRONTEND_LOG_BYTES,
    {
        if !full {
            let replaced = if is_control(character) { ' ' } else { character };
            let width = char_utf8_len(replaced);
            assert(replaced == mapped[count as int]);
            assert(mapped.take(count + 1).drop_last() =~= mapped.take(count as int));
            if used + width > MAX_FRONTEND_LOG_BYTES {
                full = true;
            } else {
                push_char(&mut sanitized, replaced);
                used = used + width;
                count = count + 1;
                assert(sanitized@ =~= mapped.take(count as int));
            }
        }
    }
    proof {
        if full {
            assert forall|j: int| count < j <= message@.len() implies
                utf8_len(mapped.take(j)) > MAX_FRONTEND_LOG_BYTES by {
                lemma_utf8_len_prefix_monotone(mapped, count + 1, j);
            }
        }
    }
    sanitized
}

/// An image region in source pixels chosen in the editor's crop tool.
#[derive(Debug, Clone, Copy, PartialEq, Eq, Structural)]
pub struct EditorCropPixels {
    pub x: u32,
    pub y: u32,
    pub width: u32,
    pub height: u32,
}

/// Message for an editable source whose size is not the one staged.
pub const EDITOR_SOURCE_CHANGED_ERROR: &'static str = "The editable screenshot source dimensions changed unexpectedly.";
/// Message for a crop area that is empty or leaves the image.
pub const CROP_AREA_INVALID_ERROR: &'static str = "The crop area is invalid.";
/// Message for an editable source that does not decode.
pub const EDITOR_SOURCE_INVALID_ERROR: &'static str = "The editable screenshot source is invalid.";
/// Message for a crop that could not be encoded.
pub const CROP_ENCODE_ERROR: &'static str = "The cropped screenshot source could not be prepared.";

/// Which step of cropping a PNG failed.
#[derive(Debug, Clone, Copy, PartialEq, Eq, Structural)]
pub enum PngCropFailure {
    Decode,
    Encode,
}

/// What `image` makes of cropping `png` to the `width` by `height` region at
/// (`x`, `y`): the crop encoded as PNG, or the step that failed.
pub uninterp spec fn png_crop(png: Seq<u8>, x: u32, y: u32, width: u32, height: u32) -> Result<Seq<u8>, PngCropFailure>;

/// `image::load_from_memory_with_format` of `png` as a PNG, then
/// `DynamicImage::crop_imm` and `write_to` as a PNG.
#[verifier::external_body]
fn crop_png(png: &[u8], x: u32, y: u32, width: u32, height: u32) -> (cropped: Result<Vec<u8>, PngCropFailure>)
    ensures
        match cropped {
            Ok(bytes) => png_crop(png@, x, y, width, height) == Ok::<Seq<u8>, PngCropFailure>(bytes@),
            Err(failure) => png_crop(png@, x, y, width, height) == Err::<Seq<u8>, PngCropFailure>(failure),
        },
{
    let image = match image::load_from_memory_with_format(png, image::ImageFormat::Png) {
        Ok(image) => image,
        Err(_) => return Err(PngCropFailure::Decode),
    };
    let mut output = std::io::Cursor::new(Vec::new());
    match image.crop_imm(x, y, width, height).write_to(&mut output, image::ImageFormat::Png) {
        Ok(()) => Ok(output.into_inner()),
        Err(_) => Err(PngCropFailure::Encode),
    }
}

/// Whether `crop` is a non-empty region inside an image of `size` pixels.
pub open spec fn crop_fits(crop: EditorCropPixels, size: (i64, i64)) -> bool {
    &&& crop.width > 0
    &&& crop.height > 0
    &&& crop.x + crop.width <= size.0
    &&& crop.y + crop.height <= size.1
}

/// The cropped editor source: the source must validate to exactly the staged
/// size, the crop must fit in it, and the crop is then cut out and encoded.
pub open spec fn spec_crop_editor_source(
    source_png: Seq<u8>,
    expected_size: (i64, i64),
    crop: EditorCropPixels,
) -> Result<Seq<u8>, Seq<char>> {
    match spec_validate_capture_png(source_png, expected_size.0, expected_size.1) {
        Err(message) => Err(message),
        Ok(size) => if size != expected_size {
            Err(EDITOR_SOURCE_CHANGED_ERROR@)
        } else if !crop_fits(crop, size) {
            Err(CROP_AREA_INVALID_ERROR@)
        } else {
            match png_crop(source_png, crop.x, crop.y, crop.width, crop.height) {
                Ok(bytes) => Ok(bytes),
                Err(PngCropFailure::Decode) => Err(EDITOR_SOURCE_INVALID_ERROR@),
                Err(PngCropFailure::Encode) => Err(CROP_ENCODE_ERROR@),
            }
        },
    }
}

/// Crops the staged editor source `source_png`, expected to be
/// `expected_size` pixels, to `crop`.
pub fn crop_editor_source(source_png: &[u8], expected_size: (i64, i64), crop: EditorCropPixels) -> (result: Result<Vec<u8>, String>)
    ensures
        match spec_crop_editor_source(source_png@, expected_size, crop) {
            Ok(bytes) => result matches Ok(r) && r@ == bytes,
            Err(message) => result matches Err(e) && e@ == message,
        },
{
    let size = match validate_capture_png(source_png, expected_size.0, expected_size.1) {
        Ok(size) => size,
        Err(message) => return Err(message),
    };
    if size.0 != expected_size.0 || size.1 != expected_size.1 {
        return Err(String::from_str(EDITOR_SOURCE_CHANGED_ERROR));
    }
    if crop.width == 0 || crop.height == 0 || crop.x as u64 + crop.width as u64 > size.0 as u64
        || crop.y as u64 + crop.height as u64 > size.1 as u64 {
        return Err(String::from_str(CROP_AREA_INVALID_ERROR));
    }
    match crop_png(source_png, crop.x, crop.y, crop.width, crop.height) {
        Ok(bytes) => Ok(bytes),
        Err(PngCropFailure::Decode) => Err(String::from_str(EDITOR_SOURCE_INVALID_ERROR)),
        Err(PngCropFailure::Encode) => Err(String::from_str(CROP_ENCODE_ERROR)),
    }
}

/// Message for an edited image whose size is not the one the editor staged.
pub const EDITED_DIMENSIONS_ERROR: &'static str = "The edited image dimensions changed unexpectedly.";

/// The verdict on an edited image before it is saved: without a replaced
/// source the staged size must still be the asset's, and the image must
/// validate as a capture of exactly the staged size.
pub open spec fn spec_check_edited_image(
    png: Seq<u8>,
    staged_size: (i64, i64),
    current_size: (i64, i64),
    replaces_source: bool,
) -> Result<(), Seq<char>> {
    if !replaces_source && staged_size != current_size {
        Err(EDITED_DIMENSIONS_ERROR@)
    } else {
        match spec_validate_capture_png(png, staged_size.0, staged_size.1) {
            Err(message) => Err(message),
            Ok(size) => if size != staged_size {
                Err(EDITED_DIMENSIONS_ERROR@)
            } else {
                Ok(())
            },
        }
    }
}

/// Checks the edited image `png` against the size staged for it
/// (`staged_size`) and the asset's current size.
pub fn check_edited_image(png: &[u8], staged_size: (i64, i64), current_size: (i64, i64), replaces_source: bool) -> (result: Result<(), String>)
    ensures
        match spec_check_edited_image(png@, staged_size, current_size, replaces_source) {
            Ok(()) => result is Ok,
            Err(message) => result matches Err(e) && e@ == message,
        },
{
    if !replaces_source && (staged_size.0 != current_size.0 || staged_size.1 != current_size.1) {
        return Err(String::from_str(EDITED_DIMENSIONS_ERROR));
    }
    let size = match validate_capture_png(png, staged_size.0, staged_size.1) {
        Ok(size) => size,
        Err(message) => return Err(message),
    };
    if size.0 != staged_size.0 || size.1 != staged_size.1 {
        return Err(String::from_str(EDITED_DIMENSIONS_ERROR));
    }
    Ok(())
}

/// The result of saving an edit: the new revision and whether the follow-up
/// action (copy or export) succeeded.
pub struct EditorUpdateDto {
    pub revision_sha256: String,
    pub action_succeeded: bool,
}

/// The `k`-th of the 32 hexadecimal digits of `id`, most significant first.
pub open spec fn uuid_nibble(id: u128, k: int) -> u8 {
    ((id >> ((124 - 4 * k) as u128)) & 0xf) as u8
}

/// The 32 lowercase hexadecimal digits of `id`, most significant first.
pub open spec fn uuid_digits(id: u128) -> Seq<char> {
    Seq::new(32, |k: int| hex_digit(uuid_nibble(id, k)))
}

/// The simple form of `id` (`uuid::Uuid::simple`): its 32 lowercase
/// hexadecimal digits without hyphens.
pub fn uuid_simple(id: u128) -> (text: String)
    ensures
        text@ == uuid_digits(id),
{
    let mut text = String::new();
    let mut k: u32 = 0;
    while k < 32
        invariant
            k <= 32,
            text@ == uuid_digits(id).take(k as int),
        decreases 32 - k,
    {
        let shift: u32 = 124 - 4 * k;
        let nibble: u8 = ((id >> shift) & 0xf) as u8;
        assert((id >> shift) & 0xf <= 15) by (bit_vector);
        assert(nibble == uuid_nibble(id, k as int));
        push_char(&mut text, hex_digit_char(nibble));
        assert(text@ =~= uuid_digits(id).take(k + 1));
        k = k + 1;
    }
    assert(uuid_digits(id).take(32) =~= uuid_digits(id));
    text
}

/// `uuid::Uuid` text of the 128-bit id `id`: its 16 bytes, most significant
/// first, as lowercase hexadecimal in groups of 8, 4, 4, 4 and 12 digits
/// joined by hyphens.
pub open spec fn uuid_text(id: u128) -> Seq<char> {
    let d = uuid_digits(id);
    d.subrange(0, 8) + seq!['-'] + d.subrange(8, 12) + seq!['-'] + d.subrange(12, 16) + seq!['-']
        + d.subrange(16, 20) + seq!['-'] + d.subrange(20, 32)
}

/// The text of an id is a hyphenated lowercase UUID.
pub proof fn lemma_uuid_text_hyphenated(id: u128)
    ensures
        is_hyphenated_uuid(uuid_text(id)),
{
    let d = uuid_digits(id);
    let t = uuid_text(id);
    assert forall|k: int| 0 <= k < 32 implies ('0' <= #[trigger] d[k] && d[k] <= '9') || ('a' <= d[k] && d[k] <= 'f') by {
        let shift = (124 - 4 * k) as u128;
        assert((id >> shift) & 0xf <= 15) by (bit_vector);
    }
    assert forall|i: int| 0 <= i < 36 implies {
        let c = #[trigger] t[i];
        if i == 8 || i == 13 || i == 18 || i == 23 {
            c == '-'
        } else {
            ('0' <= c && c <= '9') || ('a' <= c && c <= 'f')
        }
    } by {
        if i < 8 {
            assert(t[i] == d[i]);
        } else if 8 < i < 13 {
            assert(t[i] == d[i - 1]);
        } else if 13 < i < 18 {
            assert(t[i] == d[i - 2]);
        } else if 18 < i < 23 {
            assert(t[i] == d[i - 3]);
        } else if 23 < i {
            assert(t[i] == d[i - 4]);
        }
    }
}

/// `uuid::Uuid::from_u128` written out by its `Display` impl, which is the
/// hyphenated lowercase form of its big-endian bytes.
#[verifier::external_body]
fn format_uuid(id: u128) -> (text: String)
    ensures
        text@ == uuid_text(id),
{
    uuid::Uuid::from_u128(id).to_string()
}

/// The hyphenated lowercase text of the id `id`.
pub fn uuid_hyphenated(id: u128) -> (text: String)
    ensures
        text@ == uuid_text(id),
        is_hyphenated_uuid(text@),
{
    proof {
        lemma_uuid_text_hyphenated(id);
    }
    format_uuid(id)
}

/// The id `uuid::Uuid::parse_str` reads from `text`, as a 128-bit integer.
pub uninterp spec fn uuid_parse(text: Seq<char>) -> Option<u128>;

/// `uuid::Uuid::parse_str`, the parsed id as a 128-bit integer.
#[verifier::external_body]
pub(crate) fn parse_uuid(text: &str) -> (id: Option<u128>)
    ensures
        id == uuid_parse(text@),
{
    uuid::Uuid::parse_str(text).ok().map(|id| id.as_u128())
}

/// Message for a command called from another window than an editor.
pub const EDITOR_ONLY_ERROR: &'static str = "This command is only available from a screenshot editor.";
/// Message for a command called from the editor of another asset.
pub const MATCHING_EDITOR_ONLY_ERROR: &'static str = "This command is only available from the matching screenshot editor.";

/// The label of the editor window of asset `id`.
pub open spec fn editor_label(id: u128) -> Seq<char> {
    "editor-"@ + uuid_text(id)
}

/// Admits a command from the window `label` when it is the editor of the
/// asset whose id is written `id_text`.
pub fn require_editor_label(label: &str, id_text: &str) -> (result: Result<(), String>)
    ensures
        label@ == "editor-"@ + id_text@ ==> result is Ok,
        label@ != "editor-"@ + id_text@ ==> (result matches Err(message) && message@ == MATCHING_EDITOR_ONLY_ERROR@),
{
    let mut expected = String::from_str("editor-");
    expected.append(id_text);
    if str_equals(label, expected.as_str()) {
        Ok(())
    } else {
        Err(String::from_str(MATCHING_EDITOR_ONLY_ERROR))
    }
}

/// Admits a command about asset `id` only from that asset's editor window.
pub fn require_editor_window(label: &str, id: u128) -> (result: Result<(), String>)
    ensures
        label@ == editor_label(id) ==> result is Ok,
        label@ != editor_label(id) ==> (result matches Err(message) && message@ == MATCHING_EDITOR_ONLY_ERROR@),
{
    let text = format_uuid(id);
    require_editor_label(label, text.as_str())
}

/// The asset whose editor the window `label` is, read from the label after
/// `editor-`.
pub open spec fn spec_editor_window_id(label: Seq<char>) -> Result<u128, Seq<char>> {
    if !spec_has_prefix(label, "editor-"@) {
        Err(EDITOR_ONLY_ERROR@)
    } else {
        match uuid_parse(label.subrange(7, label.len() as int)) {
            None => Err(EDITOR_ONLY_ERROR@),
            Some(id) => if label == editor_label(id) { Ok(id) } else { Err(MATCHING_EDITOR_ONLY_ERROR@) },
        }
    }
}

/// The asset an editor window edits; only the canonical label of an editor
/// window names one.
pub fn editor_window_id(label: &str) -> (id: Result<u128, String>)
    ensures
        match spec_editor_window_id(label@) {
            Ok(expected) => id == Ok::<u128, String>(expected),
            Err(message) => id matches Err(m) && m@ == message,
        },
{
    proof {
        reveal_strlit("editor-");
    }
    if !has_prefix(label, "editor-") {
        return Err(String::from_str(EDITOR_ONLY_ERROR));
    }
    let chars = chars_of(label);
    let raw = string_from_chars(&chars, 7, chars.len());
    let parsed = match parse_uuid(raw.as_str()) {
        Some(id) => id,
        None => return Err(String::from_str(EDITOR_ONLY_ERROR)),
    };
    require_editor_window(label, parsed)?;
    Ok(parsed)
}

/// Message for a save token that no longer matches an approved destination.
pub const SAVE_DESTINATION_ERROR: &'static str = "The selected save destination is no longer authorized.";

/// The destination of a save-as: none without a token; with one, the path
/// approved for this editor window under that same token.
pub fn editor_save_destination<P>(approved: Option<(u128, P)>, token: Option<u128>) -> (destination: Result<Option<P>, String>)
    ensures
        token is None ==> destination == Ok::<Option<P>, String>(None),
        (token matches Some(t) && approved matches Some((approved_token, path)) && approved_token == t)
            ==> destination == Ok::<Option<P>, String>(Some((approved->0).1)),
        (token is Some && !(approved matches Some((approved_token, _)) && Some(approved_token) == token))
            ==> (destination matches Err(message) && message@ == SAVE_DESTINATION_ERROR@),
{
    match token {
        None => Ok(None),
        Some(t) => match approved {
            Some((approved_token, path)) => if approved_token == t {
                Ok(Some(path))
            } else {
                Err(String::from_str(SAVE_DESTINATION_ERROR))
            },
            None => Err(String::from_str(SAVE_DESTINATION_ERROR)),
        },
    }
}

} // verus!
