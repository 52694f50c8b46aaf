//! Non-destructive video editing drafts: which drafts are valid, the
//! revision that identifies a stored draft, and when a draft may be saved.
//!
//! A draft's times, rectangles and speeds are floating point; what the checks
//! read of them comes here as verdicts (`range_ok`, `rect_ok`, ...). The
//! rules that combine them are decided here: counts, ids, layers, colors,
//! exclusive effects, annotation budgets, and the sticker images.

use vstd::prelude::*;

use crate::annotation::{AnnotationPixelSize, ANNOTATION_SCHEMA_VERSION, MAX_ANNOTATION_DOCUMENT_BYTES};
use crate::annotation_document::{
    lemma_accepted_marks_are_bounded, marks_check, outline_check, shape_error, shape_points, shape_text_units,
    total_points, total_text_units, AnnotationOutline, MarkEntry, MarkShape, MAX_TOTAL_POINTS, MAX_TOTAL_TEXT_UNITS,
};
use crate::text::{
    chars_of, contains_control, exceeds_utf8_len, has_control, is_lower_hex_char, lemma_lower_hex_shape, lower_hex,
    spec_has_prefix, str_equals, strip_prefix, to_lower_hex, utf16_len_within, utf8_len, utf8_len_within,
};

verus! {

#[verifier::external_type_specification]
#[verifier::external_body]
pub struct ExIoError(std::io::Error);

/// Largest encoded video project, in bytes.
pub const MAX_VIDEO_PROJECT_BYTES: usize = 50331648;
/// Longest item id, in UTF-8 bytes.
pub const MAX_ITEM_ID_LEN: usize = 128;
/// Highest layer of an effect, annotation or sticker.
pub const MAX_LAYER: i32 = 1_000_000;

/// Why a video project could not be loaded or saved.
#[derive(Debug)]
pub enum VideoProjectError {
    Invalid,
    SourceChanged,
    Conflict,
    Unavailable,
    Trashed,
    Io(std::io::Error),
}

/// Export size presets.
#[derive(Debug, Clone, Copy, PartialEq, Eq, Structural)]
pub enum VideoProjectPreset {
    Original,
    Share,
    Small,
}

/// Timed effects of a draft.
#[derive(Debug, Clone, Copy, PartialEq, Eq, Structural)]
pub enum ProjectEffectKind {
    Zoom,
    Mask,
    Spotlight,
    Frame,
    Fade,
}

/// How a privacy mask hides its area.
#[derive(Debug, Clone, Copy, PartialEq, Eq, Structural)]
pub enum ProjectMaskStyle {
    Solid,
    Blur,
    Pixelate,
}

/// Whether an asset has a draft, and whether it can be used.
#[derive(Debug, Clone, Copy, PartialEq, Eq, Structural)]
pub enum VideoProjectState {
    Absent,
    Valid,
    Invalid,
}

/// Why a stored draft cannot be used.
#[derive(Debug, Clone, Copy, PartialEq, Eq, Structural)]
pub enum VideoProjectInvalidReason {
    InvalidDocument,
    SourceChanged,
}

/// Whether `ids` already holds `id`.
pub open spec fn contains_id(ids: Seq<String>, id: Seq<char>) -> bool {
    exists|j: int| 0 <= j < ids.len() && (#[trigger] ids[j])@ == id
}

/// An item id: 1 to 128 bytes, no control characters, not used before.
pub open spec fn spec_item_id_ok(id: Seq<char>, ids: Seq<String>) -> bool {
    &&& id.len() > 0
    &&& utf8_len(id) <= MAX_ITEM_ID_LEN
    &&& !has_control(id)
    &&& !contains_id(ids, id)
}

/// Checks an effect, annotation or sticker id and records it in `ids`.
pub fn validate_id(id: &str, ids: &mut Vec<String>) -> (result: Result<(), VideoProjectError>)
    ensures
        spec_item_id_ok(id@, old(ids)@) ==> result is Ok && final(ids)@.len() == old(ids)@.len() + 1
            && final(ids)@.drop_last() == old(ids)@ && final(ids)@.last()@ == id@,
        !spec_item_id_ok(id@, old(ids)@) ==> (result matches Err(VideoProjectError::Invalid)) && final(ids)@ == old(ids)@,
{
    if id.is_empty() || exceeds_utf8_len(id, MAX_ITEM_ID_LEN) || contains_control(id) {
        return Err(VideoProjectError::Invalid);
    }
    let mut j: usize = 0;
    while j < ids.len()
        invariant
            j <= ids@.len(),
            forall|k: int| 0 <= k < j ==> (#[trigger] ids@[k])@ != id@,
        decreases ids@.len() - j,
    {
        if str_equals(ids[j].as_str(), id) {
            return Err(VideoProjectError::Invalid);
        }
        j = j + 1;
    }
    let ghost before = ids@;
    ids.push(String::from_str(id));
    assert(ids@.drop_last() =~= before);
    Ok(())
}

/// A layer, when given, lies in `0..=1_000_000`.
pub fn validate_layer(layer: Option<i32>) -> (result: Result<(), VideoProjectError>)
    ensures
        (layer matches Some(value) && !(0 <= value <= MAX_LAYER)) ==> result matches Err(VideoProjectError::Invalid),
        !(layer matches Some(value) && !(0 <= value <= MAX_LAYER)) ==> result is Ok,
{
    match layer {
        Some(value) => if 0 <= value && value <= MAX_LAYER {
            Ok(())
        } else {
            Err(VideoProjectError::Invalid)
        },
        None => Ok(()),
    }
}

/// Most segments, most effects, and most annotations and stickers together,
/// in one draft.
pub const MAX_ITEMS: usize = 128;
/// Most bytes of sticker data URLs in one draft.
pub const MAX_STICKER_BYTES: usize = 33554432;
/// Bytes of decoded pixels that all stickers of a draft may use together.
pub const MAX_STICKER_PIXELS_BYTES: u64 = 134217728;
/// Largest side of a sticker image, in pixels.
pub const MAX_STICKER_SIDE: u32 = 2048;
/// Largest side of the source video, in pixels.
pub const MAX_SOURCE_SIDE: u32 = 65536;
/// Largest effect color, as `0xRRGGBB`.
pub const MAX_EFFECT_COLOR: u32 = 16777215;
/// How the data URL of every sticker begins.
pub const PNG_DATA_URL_PREFIX: &'static str = "data:image/png;base64,";

/// What the checks read of a segment: whether its time range lies within the
/// source, and whether its speed is in `0.25..=4`.
pub struct SegmentOutline {
    pub range_ok: bool,
    pub speed_ok: bool,
}

/// What the checks read of an effect. The `_ok` fields are the verdicts on
/// its floating-point fields: time range, rectangle (each side at least 2% of
/// the frame), strength in `0..=1`, transition in `0..=2`, and equal width and
/// height. `overlapping` lists the earlier effects whose time range overlaps
/// this one's.
pub struct EffectOutline {
    pub id: String,
    pub kind: ProjectEffectKind,
    pub layer: Option<i32>,
    pub range_ok: bool,
    pub rect_ok: bool,
    pub strength_ok: bool,
    pub transition_ok: bool,
    pub color: Option<u32>,
    pub square_ok: bool,
    pub overlapping: Vec<usize>,
}

/// What the checks read of a timed annotation: its id, layer, the verdict on
/// its time range, and its mark.
pub struct AnnotationItemOutline {
    pub id: String,
    pub layer: Option<i32>,
    pub range_ok: bool,
    pub mark: MarkEntry,
}

/// What the checks read of a sticker: its id, layer, the verdicts on its time
/// range and rectangle, and its image as a data URL.
pub struct StickerOutline {
    pub id: String,
    pub layer: Option<i32>,
    pub range_ok: bool,
    pub rect_ok: bool,
    pub data_url: String,
}

/// What the checks read of a draft. `timing_ok` is the verdict on the source
/// duration (finite, in `(0, 2678400]` seconds) and the playhead (within the
/// duration); `segments_disjoint` whether the segments, ordered by start, do
/// not overlap; `annotation_document_bytes` the length of the JSON encoding
/// of the annotation document that the draft's marks make.
pub struct VideoProjectOutline {
    pub schema_version: u8,
    pub source_size: AnnotationPixelSize,
    pub timing_ok: bool,
    pub segments: Vec<SegmentOutline>,
    pub segments_disjoint: bool,
    pub effects: Vec<EffectOutline>,
    pub annotations: Vec<AnnotationItemOutline>,
    pub annotation_document_bytes: usize,
    pub stickers: Vec<StickerOutline>,
}

/// The draft's version, source size, timing, and item counts.
pub open spec fn header_ok(o: VideoProjectOutline) -> bool {
    &&& o.schema_version == 1
    &&& 1 <= o.source_size.width <= MAX_SOURCE_SIDE
    &&& 1 <= o.source_size.height <= MAX_SOURCE_SIDE
    &&& o.timing_ok
    &&& o.segments@.len() <= MAX_ITEMS
    &&& o.effects@.len() <= MAX_ITEMS
    &&& o.annotations@.len() + o.stickers@.len() <= MAX_ITEMS
}

/// Every segment is valid, and no two overlap.
pub open spec fn segments_ok(o: VideoProjectOutline) -> bool {
    &&& forall|i: int| 0 <= i < o.segments@.len() ==> (#[trigger] o.segments@[i]).range_ok && o.segments@[i].speed_ok
    &&& o.segments_disjoint
}

/// A layer, when given, lies in `0..=1_000_000`.
pub open spec fn layer_ok(layer: Option<i32>) -> bool {
    match layer {
        Some(value) => 0 <= value <= MAX_LAYER,
        None => true,
    }
}

/// Effects of which no two may overlap in time.
pub open spec fn exclusive_kind(kind: ProjectEffectKind) -> bool {
    kind == ProjectEffectKind::Zoom || kind == ProjectEffectKind::Frame || kind == ProjectEffectKind::Fade
}

/// Whether effect `i` is of an exclusive kind and overlaps an earlier effect
/// of the same kind.
pub open spec fn conflicts_earlier(effects: Seq<EffectOutline>, i: int) -> bool {
    let e = effects[i];
    &&& exclusive_kind(e.kind)
    &&& exists|k: int|
        0 <= k < e.overlapping@.len() && (#[trigger] e.overlapping@[k]) < i && effects[e.overlapping@[k] as int].kind
            == e.kind
}

/// Effect `i` is valid.
pub open spec fn effect_ok(effects: Seq<EffectOutline>, i: int) -> bool {
    let e = effects[i];
    &&& layer_ok(e.layer)
    &&& e.range_ok
    &&& e.rect_ok
    &&& e.strength_ok
    &&& e.transition_ok
    &&& match e.color {
        Some(c) => c <= MAX_EFFECT_COLOR,
        None => true,
    }
    &&& (e.kind == ProjectEffectKind::Zoom ==> e.square_ok)
    &&& !conflicts_earlier(effects, i)
}

/// Every effect is valid.
pub open spec fn effects_ok(o: VideoProjectOutline) -> bool {
    forall|i: int| 0 <= i < o.effects@.len() ==> #[trigger] effect_ok(o.effects@, i)
}

/// The views of `strings`.
pub open spec fn string_views(strings: Seq<String>) -> Seq<Seq<char>> {
    strings.map_values(|s: String| s@)
}

/// An id on its own: 1 to 128 bytes, without control characters.
pub open spec fn id_form_ok(id: Seq<char>) -> bool {
    id.len() > 0 && utf8_len(id) <= MAX_ITEM_ID_LEN && !has_control(id)
}

/// Ids taken in order: each well formed and not used before.
pub open spec fn ids_accepted(ids: Seq<Seq<char>>) -> bool
    decreases ids.len(),
{
    ids.len() == 0 || (ids_accepted(ids.drop_last()) && id_form_ok(ids.last()) && !ids.drop_last().contains(ids.last()))
}

/// The ids of the effects, in order.
pub open spec fn effect_ids(o: VideoProjectOutline) -> Seq<Seq<char>> {
    o.effects@.map_values(|e: EffectOutline| e.id@)
}

/// The ids of the annotations, in order.
pub open spec fn annotation_ids(o: VideoProjectOutline) -> Seq<Seq<char>> {
    o.annotations@.map_values(|a: AnnotationItemOutline| a.id@)
}

/// The ids of the stickers, in order.
pub open spec fn sticker_ids(o: VideoProjectOutline) -> Seq<Seq<char>> {
    o.stickers@.map_values(|s: StickerOutline| s.id@)
}

/// Every id of the draft: effects, then annotations, then stickers.
pub open spec fn project_ids(o: VideoProjectOutline) -> Seq<Seq<char>> {
    effect_ids(o) + annotation_ids(o) + sticker_ids(o)
}

/// The marks of the annotations, in order.
pub open spec fn annotation_marks(o: VideoProjectOutline) -> Seq<MarkEntry> {
    o.annotations@.map_values(|a: AnnotationItemOutline| a.mark)
}

/// Every annotation has a valid layer and time range, and their marks stay
/// within the point and text budgets.
pub open spec fn annotations_ok(o: VideoProjectOutline) -> bool {
    &&& forall|i: int| 0 <= i < o.annotations@.len() ==> layer_ok((#[trigger] o.annotations@[i]).layer) && o.annotations@[i].range_ok
    &&& total_points(annotation_marks(o)) <= MAX_TOTAL_POINTS
    &&& total_text_units(annotation_marks(o)) <= MAX_TOTAL_TEXT_UNITS
}

/// The marks form an accepted annotation document over the source size, and
/// its encoding fits.
pub open spec fn annotation_document_ok(o: VideoProjectOutline) -> bool {
    let canvas_ok = 1 <= o.source_size.width <= MAX_SOURCE_SIDE && 1 <= o.source_size.height <= MAX_SOURCE_SIDE;
    &&& outline_check(ANNOTATION_SCHEMA_VERSION, canvas_ok, o.source_size, annotation_marks(o)) is Ok
    &&& o.annotation_document_bytes <= MAX_ANNOTATION_DOCUMENT_BYTES
}

/// Bytes of the data URLs of `stickers`.
pub open spec fn sticker_bytes(stickers: Seq<StickerOutline>) -> nat
    decreases stickers.len(),
{
    if stickers.len() == 0 {
        0
    } else {
        sticker_bytes(stickers.drop_last()) + utf8_len(stickers.last().data_url@)
    }
}

/// `base64`'s standard engine (padded) decoding `text`; none when it refuses.
pub uninterp spec fn base64_standard_decoded(text: Seq<char>) -> Option<Seq<u8>>;

/// What `image`'s PNG decoder, limited to `max_side` pixels a side and
/// `max_alloc` bytes, reads from the header of `png`: width, height, whether
/// the pixels are 8-bit RGBA, and the bytes of the decoded pixels; none when
/// it refuses the image.
pub uninterp spec fn png_sticker_header(png: Seq<u8>, max_side: u32, max_alloc: u64) -> Option<(u32, u32, bool, u64)>;

/// Whether `image` decodes all of `png` under the same limits.
pub uninterp spec fn png_sticker_decodes(png: Seq<u8>, max_side: u32, max_alloc: u64) -> bool;

/// `base64::engine::general_purpose::STANDARD.decode(text)`.
#[verifier::external_body]
fn decode_base64(text: &str) -> (bytes: Option<Vec<u8>>)
    ensures
        match bytes {
            Some(b) => base64_standard_decoded(text@) == Some(b@),
            None => base64_standard_decoded(text@) is None,
        },
{
    base64::Engine::decode(&base64::engine::general_purpose::STANDARD, text).ok()
}

/// `image::codecs::png::PngDecoder::with_limits` on `png`, with the side and
/// allocation limits set, then the decoder's `dimensions`, `color_type`
/// (whether it is `Rgba8`) and `total_bytes`.
#[verifier::external_body]
fn read_png_sticker_header(png: &[u8], max_side: u32, max_alloc: u64) -> (header: Option<(u32, u32, bool, u64)>)
    ensures
        header == png_sticker_header(png@, max_side, max_alloc),
{
    let mut limits = image::Limits::default();
    limits.max_image_width = Some(max_side);
    limits.max_image_height = Some(max_side);
    limits.max_alloc = Some(max_alloc);
    let decoder = image::codecs::png::PngDecoder::with_limits(std::io::Cursor::new(png), limits).ok()?;
    let (width, height) = image::ImageDecoder::dimensions(&decoder);
    let rgba8 = image::ImageDecoder::color_type(&decoder) == image::ColorType::Rgba8;
    Some((width, height, rgba8, image::ImageDecoder::total_bytes(&decoder)))
}

/// `image::DynamicImage::from_decoder` on a `PngDecoder` made as in
/// `read_png_sticker_header`: whether it succeeds.
#[verifier::external_body]
fn decode_png_sticker(png: &[u8], max_side: u32, max_alloc: u64) -> (decoded: bool)
    ensures
        decoded == png_sticker_decodes(png@, max_side, max_alloc),
{
    let mut limits = image::Limits::default();
    limits.max_image_width = Some(max_side);
    limits.max_image_height = Some(max_side);
    limits.max_alloc = Some(max_alloc);
    match image::codecs::png::PngDecoder::with_limits(std::io::Cursor::new(png), limits) {
        Ok(decoder) => image::DynamicImage::from_decoder(decoder).is_ok(),
        Err(_) => false,
    }
}

/// The pixel budget left after the sticker with data URL `data_url` is
/// decoded with `left` bytes available: none when it is not a base64 PNG
/// data URL, does not decode within the limits, or needs more than `left`
/// bytes at its peak (its RGBA pixels, plus its own pixels when they are not
/// RGBA). A sticker uses its RGBA size of the budget.
pub open spec fn sticker_charge(data_url: Seq<char>, left: u64) -> Option<u64> {
    if !spec_has_prefix(data_url, PNG_DATA_URL_PREFIX@) {
        None
    } else {
        match base64_standard_decoded(data_url.subrange(PNG_DATA_URL_PREFIX@.len() as int, data_url.len() as int)) {
            None => None,
            Some(png) => match png_sticker_header(png, MAX_STICKER_SIDE, left) {
                None => None,
                Some(header) => {
                    let rgba = header.0 * header.1 * 4;
                    let peak = if header.2 { rgba } else { rgba + header.3 };
                    if peak > left {
                        None
                    } else if !png_sticker_decodes(png, MAX_STICKER_SIDE, left) {
                        None
                    } else {
                        Some((left - rgba) as u64)
                    }
                },
            },
        }
    }
}

/// Whether `stickers`, decoded in order, fit in a pixel budget of `left` bytes.
pub open spec fn stickers_fit(stickers: Seq<StickerOutline>, left: u64) -> bool
    decreases stickers.len(),
{
    if stickers.len() == 0 {
        true
    } else {
        match sticker_charge(stickers[0].data_url@, left) {
            None => false,
            Some(rest) => stickers_fit(stickers.skip(1), rest),
        }
    }
}

/// Every sticker has a valid layer, time range and rectangle, their data URLs
/// fit in 32 MiB together, and their images decode within the pixel budget.
pub open spec fn stickers_ok(o: VideoProjectOutline) -> bool {
    &&& forall|i: int|
        0 <= i < o.stickers@.len() ==> layer_ok((#[trigger] o.stickers@[i]).layer) && o.stickers@[i].range_ok
            && o.stickers@[i].rect_ok
    &&& sticker_bytes(o.stickers@) <= MAX_STICKER_BYTES
    &&& stickers_fit(o.stickers@, MAX_STICKER_PIXELS_BYTES)
}

/// Whether a draft is valid.
pub open spec fn project_valid(o: VideoProjectOutline) -> bool {
    &&& header_ok(o)
    &&& segments_ok(o)
    &&& ids_accepted(project_ids(o))
    &&& effects_ok(o)
    &&& annotations_ok(o)
    &&& annotation_document_ok(o)
    &&& stickers_ok(o)
}

/// Accepted ids stay accepted when the last ones are dropped.
proof fn lemma_ids_prefix_accepted(ids: Seq<Seq<char>>, n: int)
    requires
        0 <= n <= ids.len(),
        ids_accepted(ids),
    ensures
        ids_accepted(ids.take(n)),
    decreases ids.len() - n,
{
    if n == ids.len() {
        assert(ids.take(n) =~= ids);
    } else {
        assert(ids.drop_last().take(n) =~= ids.take(n));
        lemma_ids_prefix_accepted(ids.drop_last(), n);
    }
}

/// Accepted ids are pairwise distinct and each well formed.
pub proof fn lemma_accepted_ids_distinct(ids: Seq<Seq<char>>)
    requires
        ids_accepted(ids),
    ensures
        forall|i: int| 0 <= i < ids.len() ==> id_form_ok(#[trigger] ids[i]),
        forall|i: int, j: int| 0 <= i < j < ids.len() ==> (#[trigger] ids[i]) != (#[trigger] ids[j]),
    decreases ids.len(),
{
    if ids.len() > 0 {
        let prior = ids.drop_last();
        lemma_accepted_ids_distinct(prior);
        assert forall|i: int| 0 <= i < ids.len() implies id_form_ok(#[trigger] ids[i]) by {
            if i < prior.len() {
                assert(ids[i] == prior[i]);
            }
        }
        assert forall|i: int, j: int| 0 <= i < j < ids.len() implies (#[trigger] ids[i]) != (#[trigger] ids[j]) by {
            assert(ids[i] == prior[i]);
            if j < prior.len() {
                assert(ids[j] == prior[j]);
            } else if ids[i] == ids[j] {
                assert(prior.contains(ids.last()));
            }
        }
    }
}

proof fn lemma_total_points_prefix(marks: Seq<MarkEntry>, n: int)
    requires
        0 <= n <= marks.len(),
    ensures
        total_points(marks.take(n)) <= total_points(marks),
        total_text_units(marks.take(n)) <= total_text_units(marks),
    decreases marks.len() - n,
{
    if n == marks.len() {
        assert(marks.take(n) =~= marks);
    } else {
        assert(marks.drop_last().take(n) =~= marks.take(n));
        lemma_total_points_prefix(marks.drop_last(), n);
    }
}

proof fn lemma_sticker_bytes_prefix(stickers: Seq<StickerOutline>, n: int)
    requires
        0 <= n <= stickers.len(),
    ensures
        sticker_bytes(stickers.take(n)) <= sticker_bytes(stickers),
    decreases stickers.len() - n,
{
    if n == stickers.len() {
        assert(stickers.take(n) =~= stickers);
    } else {
        assert(stickers.drop_last().take(n) =~= stickers.take(n));
        lemma_sticker_bytes_prefix(stickers.drop_last(), n);
    }
}

/// A valid draft is bounded: at most 128 segments, 128 effects, and 128
/// annotations and stickers together; no two of its items share an id; each
/// mark is well formed and has its own mark id; and its marks stay within the
/// point and text budgets, its stickers within 32 MiB of data URLs.
pub proof fn lemma_valid_project_bounded(o: VideoProjectOutline)
    requires
        project_valid(o),
    ensures
        o.segments@.len() <= MAX_ITEMS,
        o.effects@.len() <= MAX_ITEMS,
        o.annotations@.len() + o.stickers@.len() <= MAX_ITEMS,
        forall|i: int, j: int|
            0 <= i < j < project_ids(o).len() ==> (#[trigger] project_ids(o)[i]) != (#[trigger] project_ids(o)[j]),
        forall|i: int|
            0 <= i < annotation_marks(o).len() ==> (#[trigger] annotation_marks(o)[i]).id is Some && shape_error(
                annotation_marks(o)[i].shape,
            ) is None,
        forall|i: int, j: int|
            0 <= i < j < annotation_marks(o).len() ==> (#[trigger] annotation_marks(o)[i]).id != (
            #[trigger] annotation_marks(o)[j]).id,
        total_points(annotation_marks(o)) <= MAX_TOTAL_POINTS,
        total_text_units(annotation_marks(o)) <= MAX_TOTAL_TEXT_UNITS,
        sticker_bytes(o.stickers@) <= MAX_STICKER_BYTES,
{
    lemma_accepted_ids_distinct(project_ids(o));
    assert(marks_check(annotation_marks(o)) is Ok);
    lemma_accepted_marks_are_bounded(annotation_marks(o));
}

/// Accepts `id` when it is well formed and not among `ids`, and records it.
fn accept_id(id: &str, ids: &mut Vec<String>) -> (accepted: bool)
    ensures
        accepted == (id_form_ok(id@) && !string_views(old(ids)@).contains(id@)),
        accepted ==> string_views(final(ids)@) == string_views(old(ids)@).push(id@),
{
    let ghost before = old(ids)@;
    let result = validate_id(id, ids);
    proof {
        if contains_id(before, id@) {
            let j = choose|j: int| 0 <= j < before.len() && (#[trigger] before[j])@ == id@;
            assert(string_views(before)[j] == id@);
        }
        if string_views(before).contains(id@) {
            let j = choose|j: int| 0 <= j < string_views(before).len() && string_views(before)[j] == id@;
            assert(before[j]@ == id@);
        }
        if result is Ok {
            assert(string_views(ids@) =~= string_views(before).push(id@));
        }
    }
    result.is_ok()
}

/// Checks every segment.
fn check_segments(o: &VideoProjectOutline) -> (ok: bool)
    ensures
        ok == segments_ok(*o),
{
    let mut i: usize = 0;
    while i < o.segments.len()
        invariant
            i <= o.segments@.len(),
            forall|j: int| 0 <= j < i ==> (#[trigger] o.segments@[j]).range_ok && o.segments@[j].speed_ok,
        decreases o.segments@.len() - i,
    {
        if !o.segments[i].range_ok || !o.segments[i].speed_ok {
            return false;
        }
        i = i + 1;
    }
    o.segments_disjoint
}

/// Whether effect `i` overlaps an earlier effect of its own, exclusive, kind.
fn effect_conflicts(effects: &Vec<EffectOutline>, i: usize) -> (conflict: bool)
    requires
        i < effects@.len(),
    ensures
        conflict == conflicts_earlier(effects@, i as int),
{
    let effect = &effects[i];
    let exclusive = match effect.kind {
        ProjectEffectKind::Zoom | ProjectEffectKind::Frame | ProjectEffectKind::Fade => true,
        _ => false,
    };
    if !exclusive {
        return false;
    }
    let mut k: usize = 0;
    while k < effect.overlapping.len()
        invariant
            i < effects@.len(),
            *effect == effects@[i as int],
            exclusive_kind(effect.kind),
            k <= effect.overlapping@.len(),
            forall|m: int|
                0 <= m < k ==> !((#[trigger] effect.overlapping@[m]) < i && effects@[effect.overlapping@[m] as int].kind
                    == effect.kind),
        decreases effect.overlapping@.len() - k,
    {
        let other = effect.overlapping[k];
        if other < i && effects[other].kind == effect.kind {
            assert(effects@[i as int].overlapping@[k as int] == other);
            assert(effects@[other as int].kind == effects@[i as int].kind);
            return true;
        }
        k = k + 1;
    }
    false
}

/// Checks every effect, accepting their ids after those in `ids`.
fn check_effects(o: &VideoProjectOutline, ids: &mut Vec<String>) -> (ok: bool)
    requires
        ids_accepted(string_views(old(ids)@)),
    ensures
        ok == (ids_accepted(string_views(old(ids)@) + effect_ids(*o)) && effects_ok(*o)),
        ok ==> string_views(final(ids)@) == string_views(old(ids)@) + effect_ids(*o),
{
    let ghost prior = string_views(ids@);
    let mut i: usize = 0;
    while i < o.effects.len()
        invariant
            i <= o.effects@.len(),
            prior == string_views(old(ids)@),
            string_views(ids@) == prior + effect_ids(*o).take(i as int),
            ids_accepted(prior + effect_ids(*o).take(i as int)),
            forall|j: int| 0 <= j < i ==> #[trigger] effect_ok(o.effects@, j),
        decreases o.effects@.len() - i,
    {
        let ghost before = string_views(ids@);
        let effect = &o.effects[i];
        proof {
            assert(effect_ids(*o).take(i + 1) =~= effect_ids(*o).take(i as int).push(effect.id@));
            assert((prior + effect_ids(*o).take(i + 1)).drop_last() =~= before);
            assert(prior + effect_ids(*o) =~= (prior + effect_ids(*o).take(i + 1)) + effect_ids(*o).skip(i + 1));
            assert((prior + effect_ids(*o)).take(prior.len() + i + 1) =~= prior + effect_ids(*o).take(i + 1));
        }
        if !accept_id(effect.id.as_str(), ids) {
            proof {
                let extended = prior + effect_ids(*o).take(i + 1);
                assert(extended.last() == effect.id@);
                assert(!ids_accepted(extended));
                if ids_accepted(prior + effect_ids(*o)) {
                    lemma_ids_prefix_accepted(prior + effect_ids(*o), prior.len() + i + 1);
                }
            }
            return false;
        }
        let color_ok = match effect.color {
            Some(c) => c <= MAX_EFFECT_COLOR,
            None => true,
        };
        let zoom = match effect.kind {
            ProjectEffectKind::Zoom => true,
            _ => false,
        };
        let layer_fits = match effect.layer {
            Some(value) => 0 <= value && value <= MAX_LAYER,
            None => true,
        };
        if !layer_fits || !effect.range_ok || !effect.rect_ok || !effect.strength_ok || !effect.transition_ok
            || !color_ok || (zoom && !effect.square_ok) || effect_conflicts(&o.effects, i) {
            proof {
                assert(!effect_ok(o.effects@, i as int));
            }
            return false;
        }
        i = i + 1;
    }
    proof {
        assert(effect_ids(*o).take(i as int) =~= effect_ids(*o));
    }
    true
}

/// Checks every annotation's id, layer and time range, and the point and
/// text budgets of their marks.
fn check_annotations(o: &VideoProjectOutline, ids: &mut Vec<String>) -> (ok: bool)
    requires
        ids_accepted(string_views(old(ids)@)),
    ensures
        ok == (ids_accepted(string_views(old(ids)@) + annotation_ids(*o)) && annotations_ok(*o)),
        ok ==> string_views(final(ids)@) == string_views(old(ids)@) + annotation_ids(*o),
{
    let ghost prior = string_views(ids@);
    let ghost marks = annotation_marks(*o);
    let mut points: usize = 0;
    let mut text_units: usize = 0;
    let mut i: usize = 0;
    while i < o.annotations.len()
        invariant
            i <= o.annotations@.len(),
            marks == annotation_marks(*o),
            prior == string_views(old(ids)@),
            string_views(ids@) == prior + annotation_ids(*o).take(i as int),
            ids_accepted(prior + annotation_ids(*o).take(i as int)),
            forall|j: int| 0 <= j < i ==> layer_ok((#[trigger] o.annotations@[j]).layer) && o.annotations@[j].range_ok,
            points == total_points(marks.take(i as int)),
            text_units == total_text_units(marks.take(i as int)),
            points <= MAX_TOTAL_POINTS,
            text_units <= MAX_TOTAL_TEXT_UNITS,
        decreases o.annotations@.len() - i,
    {
        let ghost before = string_views(ids@);
        let item = &o.annotations[i];
        proof {
            assert(annotation_ids(*o).take(i + 1) =~= annotation_ids(*o).take(i as int).push(item.id@));
            assert((prior + annotation_ids(*o).take(i + 1)).drop_last() =~= before);
            assert((prior + annotation_ids(*o)).take(prior.len() + i + 1) =~= prior + annotation_ids(*o).take(i + 1));
            assert(marks.take(i + 1).drop_last() =~= marks.take(i as int));
            assert(marks.take(i + 1).last() == item.mark);
            lemma_total_points_prefix(marks, i + 1);
        }
        if !accept_id(item.id.as_str(), ids) {
            proof {
                let extended = prior + annotation_ids(*o).take(i + 1);
                assert(extended.last() == item.id@);
                assert(!ids_accepted(extended));
                if ids_accepted(prior + annotation_ids(*o)) {
                    lemma_ids_prefix_accepted(prior + annotation_ids(*o), prior.len() + i + 1);
                }
            }
            return false;
        }
        let layer_fits = match item.layer {
            Some(value) => 0 <= value && value <= MAX_LAYER,
            None => true,
        };
        if !layer_fits || !item.range_ok {
            return false;
        }
        let (added_points, added_units): (usize, usize) = match &item.mark.shape {
            MarkShape::Stroke { point_count, .. } => (*point_count, 0),
            MarkShape::Label { text, .. } => match utf16_len_within(text.as_str(), MAX_TOTAL_TEXT_UNITS) {
                Some(units) => (0, units),
                None => {
                    return false;
                },
            },
            _ => (0, 0),
        };
        proof {
            assert(added_points == shape_points(item.mark.shape));
            assert(added_units == shape_text_units(item.mark.shape));
        }
        if added_points > MAX_TOTAL_POINTS - points || added_units > MAX_TOTAL_TEXT_UNITS - text_units {
            return false;
        }
        points = points + added_points;
        text_units = text_units + added_units;
        i = i + 1;
    }
    proof {
        assert(annotation_ids(*o).take(i as int) =~= annotation_ids(*o));
        assert(marks.take(i as int) =~= marks);
    }
    true
}

/// Checks that the annotations' marks form an accepted annotation document
/// over the source size, and that its encoding fits.
fn check_annotation_document(o: &VideoProjectOutline) -> (ok: bool)
    ensures
        ok == annotation_document_ok(*o),
{
    let mut marks: Vec<MarkEntry> = Vec::new();
    let mut i: usize = 0;
    while i < o.annotations.len()
        invariant
            i <= o.annotations@.len(),
            marks@ == annotation_marks(*o).take(i as int),
        decreases o.annotations@.len() - i,
    {
        marks.push(o.annotations[i].mark.duplicate());
        proof {
            assert(marks@ =~= annotation_marks(*o).take(i + 1));
        }
        i = i + 1;
    }
    proof {
        assert(marks@ =~= annotation_marks(*o));
    }
    let size = o.source_size;
    let canvas_ok = 1 <= size.width && size.width <= MAX_SOURCE_SIDE && 1 <= size.height && size.height
        <= MAX_SOURCE_SIDE;
    let document = AnnotationOutline {
        schema_version: ANNOTATION_SCHEMA_VERSION,
        canvas_ok,
        source_pixels: size,
        marks,
    };
    document.validate().is_ok() && o.annotation_document_bytes <= MAX_ANNOTATION_DOCUMENT_BYTES
}

/// Decodes the sticker with data URL `data_url` within a pixel budget of
/// `left` bytes; the budget left after it.
fn charge_sticker(data_url: &str, left: u64) -> (rest: Option<u64>)
    ensures
        rest == sticker_charge(data_url@, left),
{
    let encoded = match strip_prefix(data_url, PNG_DATA_URL_PREFIX) {
        Some(encoded) => encoded,
        None => {
            return None;
        },
    };
    let png = match decode_base64(encoded.as_str()) {
        Some(png) => png,
        None => {
            return None;
        },
    };
    let (width, height, rgba8, total) = match read_png_sticker_header(png.as_slice(), MAX_STICKER_SIDE, left) {
        Some(header) => header,
        None => {
            return None;
        },
    };
    proof {
        assert((width as int) * (height as int) <= 0xffff_ffff * 0xffff_ffff) by (nonlinear_arith)
            requires
                width <= 0xffff_ffff,
                height <= 0xffff_ffff,
        ;
    }
    let pixels: u128 = (width as u128) * (height as u128);
    let rgba: u128 = pixels * 4;
    let peak: u128 = if rgba8 {
        rgba
    } else {
        rgba + total as u128
    };
    if peak > left as u128 {
        return None;
    }
    if !decode_png_sticker(png.as_slice(), MAX_STICKER_SIDE, left) {
        return None;
    }
    Some(left - rgba as u64)
}

/// Checks every sticker's id, layer, time range and rectangle, the total size
/// of their data URLs, and their images against the pixel budget.
fn check_stickers(o: &VideoProjectOutline, ids: &mut Vec<String>) -> (ok: bool)
    requires
        ids_accepted(string_views(old(ids)@)),
    ensures
        ok == (ids_accepted(string_views(old(ids)@) + sticker_ids(*o)) && stickers_ok(*o)),
{
    let ghost prior = string_views(ids@);
    let ghost stickers = o.stickers@;
    let mut encoded: usize = 0;
    let mut left: u64 = MAX_STICKER_PIXELS_BYTES;
    let mut i: usize = 0;
    proof {
        assert(stickers.skip(0) =~= stickers);
        assert(sticker_ids(*o).take(0) =~= Seq::<Seq<char>>::empty());
        assert(prior + Seq::<Seq<char>>::empty() =~= prior);
        assert(stickers.take(0) =~= Seq::<StickerOutline>::empty());
    }
    while i < o.stickers.len()
        invariant
            i <= o.stickers@.len(),
            stickers == o.stickers@,
            prior == string_views(old(ids)@),
            string_views(ids@) == prior + sticker_ids(*o).take(i as int),
            ids_accepted(prior + sticker_ids(*o).take(i as int)),
            forall|j: int|
                0 <= j < i ==> layer_ok((#[trigger] o.stickers@[j]).layer) && o.stickers@[j].range_ok
                    && o.stickers@[j].rect_ok,
            encoded == sticker_bytes(stickers.take(i as int)),
            encoded <= MAX_STICKER_BYTES,
            stickers_fit(stickers, MAX_STICKER_PIXELS_BYTES) == stickers_fit(stickers.skip(i as int), left),
        decreases o.stickers@.len() - i,
    {
        let ghost before = string_views(ids@);
        let sticker = &o.stickers[i];
        proof {
            assert(sticker_ids(*o).take(i + 1) =~= sticker_ids(*o).take(i as int).push(sticker.id@));
            assert((prior + sticker_ids(*o).take(i + 1)).drop_last() =~= before);
            assert((prior + sticker_ids(*o)).take(prior.len() + i + 1) =~= prior + sticker_ids(*o).take(i + 1));
            assert(stickers.take(i + 1).drop_last() =~= stickers.take(i as int));
            assert(stickers.take(i + 1).last() == *sticker);
            lemma_sticker_bytes_prefix(stickers, i + 1);
            assert(stickers.skip(i as int)[0] == *sticker);
            assert(stickers.skip(i as int).skip(1) =~= stickers.skip(i + 1));
        }
        if !accept_id(sticker.id.as_str(), ids) {
            proof {
                let extended = prior + sticker_ids(*o).take(i + 1);
                assert(extended.last() == sticker.id@);
                assert(!ids_accepted(extended));
                if ids_accepted(prior + sticker_ids(*o)) {
                    lemma_ids_prefix_accepted(prior + sticker_ids(*o), prior.len() + i + 1);
                }
            }
            return false;
        }
        let layer_fits = match sticker.layer {
            Some(value) => 0 <= value && value <= MAX_LAYER,
            None => true,
        };
        if !layer_fits || !sticker.range_ok || !sticker.rect_ok {
            return false;
        }
        match utf8_len_within(sticker.data_url.as_str(), MAX_STICKER_BYTES - encoded) {
            Some(bytes) => {
                encoded = encoded + bytes;
            },
            None => {
                return false;
            },
        }
        match charge_sticker(sticker.data_url.as_str(), left) {
            Some(rest) => {
                left = rest;
            },
            None => {
                return false;
            },
        }
        i = i + 1;
    }
    proof {
        assert(sticker_ids(*o).take(i as int) =~= sticker_ids(*o));
        assert(stickers.take(i as int) =~= stickers);
    }
    true
}

impl VideoProjectOutline {
    /// Checks a draft: its version, source size, timing and item counts; its
    /// segments; the ids, layers and settings of its effects; its
    /// annotations and their marks; and its stickers' images. Every failure
    /// is `Invalid`.
    pub fn validate(&self) -> (result: Result<(), VideoProjectError>)
        ensures
            result is Ok <==> project_valid(*self),
            result is Err ==> result matches Err(VideoProjectError::Invalid),
    {
        let size = self.source_size;
        if self.schema_version != 1 || size.width == 0 || size.height == 0 || size.width > MAX_SOURCE_SIDE
            || size.height > MAX_SOURCE_SIDE || !self.timing_ok || self.segments.len() > MAX_ITEMS
            || self.effects.len() > MAX_ITEMS || self.annotations.len() > MAX_ITEMS || self.stickers.len()
            > MAX_ITEMS - self.annotations.len() {
            return Err(VideoProjectError::Invalid);
        }
        if !check_segments(self) {
            return Err(VideoProjectError::Invalid);
        }
        let mut ids: Vec<String> = Vec::new();
        proof {
            assert(string_views(ids@) =~= Seq::<Seq<char>>::empty());
        }
        let ghost all = project_ids(*self);
        let ghost effects_ids = effect_ids(*self);
        let ghost through_annotations = effect_ids(*self) + annotation_ids(*self);
        proof {
            assert(Seq::<Seq<char>>::empty() + effects_ids =~= effects_ids);
            assert(all.take(effects_ids.len() as int) =~= effects_ids);
            assert(all.take(through_annotations.len() as int) =~= through_annotations);
        }
        if !check_effects(self, &mut ids) {
            proof {
                if ids_accepted(all) {
                    lemma_ids_prefix_accepted(all, effects_ids.len() as int);
                }
            }
            return Err(VideoProjectError::Invalid);
        }
        if !check_annotations(self, &mut ids) {
            proof {
                if ids_accepted(all) {
                    lemma_ids_prefix_accepted(all, through_annotations.len() as int);
                }
            }
            return Err(VideoProjectError::Invalid);
        }
        if !check_annotation_document(self) {
            return Err(VideoProjectError::Invalid);
        }
        if !check_stickers(self, &mut ids) {
            return Err(VideoProjectError::Invalid);
        }
        Ok(())
    }
}

/// Largest encoded draft, with its storage envelope, in bytes.
pub const MAX_STORED_BYTES: usize = 50335744;
/// What every revision hash begins with.
pub const REVISION_DOMAIN: &'static str = "kiri-video-project-v1";

/// A stored draft file as read: missing, its bytes, or, when it is too large
/// to read, a description of its size and time.
pub enum StoredBytes {
    Absent,
    Present(Vec<u8>),
    Oversized(Vec<u8>),
}

/// The SHA-256 digest of `data`.
pub uninterp spec fn sha256_digest(data: Seq<u8>) -> Seq<u8>;

/// `sha2::Sha256::digest(data)`, as its 32 bytes.
#[verifier::external_body]
pub(crate) fn sha256(data: &[u8]) -> (digest: Vec<u8>)
    ensures
        digest@ == sha256_digest(data@),
        digest@.len() == 32,
{
    <sha2::Sha256 as sha2::Digest>::digest(data).to_vec()
}

/// The tag and bytes that a stored draft adds to its revision hash.
pub open spec fn stored_tail(stored: StoredBytes) -> Seq<u8> {
    match stored {
        StoredBytes::Absent => seq![0u8],
        StoredBytes::Present(bytes) => seq![1u8] + bytes@,
        StoredBytes::Oversized(description) => seq![2u8] + description@,
    }
}

/// What a revision hashes: the domain, the library id and generation, the
/// source's identity as JSON, and the stored draft.
pub open spec fn revision_preimage(
    source_json: Seq<u8>,
    library_id: Seq<u8>,
    generation: Seq<u8>,
    stored: StoredBytes,
) -> Seq<u8> {
    REVISION_DOMAIN@.map_values(|c: char| c as u8) + library_id + generation + source_json + stored_tail(stored)
}

/// The revision of a stored draft: its hash in lowercase hexadecimal.
pub open spec fn spec_revision(
    source_json: Seq<u8>,
    library_id: Seq<u8>,
    generation: Seq<u8>,
    stored: StoredBytes,
) -> Seq<char> {
    lower_hex(sha256_digest(revision_preimage(source_json, library_id, generation, stored)))
}

fn append_bytes(bytes: &mut Vec<u8>, more: &[u8])
    ensures
        final(bytes)@ == old(bytes)@ + more@,
{
    let mut i: usize = 0;
    while i < more.len()
        invariant
            i <= more@.len(),
            bytes@ == old(bytes)@ + more@.take(i as int),
        decreases more@.len() - i,
    {
        bytes.push(more[i]);
        proof {
            assert(bytes@ =~= old(bytes)@ + more@.take(i + 1));
        }
        i = i + 1;
    }
    proof {
        assert(more@.take(i as int) =~= more@);
    }
}

/// The revision of the draft `stored` of a source whose identity encodes as
/// `source_json`, in the library `library_id` at `generation`.
pub fn revision_for(source_json: &[u8], library_id: &[u8], generation: &[u8], stored: &StoredBytes) -> (revision: String)
    ensures
        revision@ == spec_revision(source_json@, library_id@, generation@, *stored),
        revision@.len() == 64,
        forall|i: int| 0 <= i < 64 ==> is_lower_hex_char(#[trigger] revision@[i]),
{
    let domain = chars_of(REVISION_DOMAIN);
    let mut preimage: Vec<u8> = Vec::new();
    let mut i: usize = 0;
    while i < domain.len()
        invariant
            domain@ == REVISION_DOMAIN@,
            i <= domain@.len(),
            preimage@ == domain@.take(i as int).map_values(|c: char| c as u8),
        decreases domain@.len() - i,
    {
        preimage.push(domain[i] as u8);
        proof {
            assert(preimage@ =~= domain@.take(i + 1).map_values(|c: char| c as u8));
        }
        i = i + 1;
    }
    proof {
        assert(domain@.take(i as int) =~= domain@);
    }
    append_bytes(&mut preimage, library_id);
    append_bytes(&mut preimage, generation);
    append_bytes(&mut preimage, source_json);
    match stored {
        StoredBytes::Absent => {
            preimage.push(0u8);
        },
        StoredBytes::Present(bytes) => {
            preimage.push(1u8);
            append_bytes(&mut preimage, bytes.as_slice());
        },
        StoredBytes::Oversized(description) => {
            preimage.push(2u8);
            append_bytes(&mut preimage, description.as_slice());
        },
    }
    proof {
        assert(preimage@ =~= revision_preimage(source_json@, library_id@, generation@, *stored));
    }
    let digest = sha256(preimage.as_slice());
    proof {
        lemma_lower_hex_shape(digest@);
    }
    to_lower_hex(digest.as_slice())
}

/// What was read of a stored draft file that parsed: its envelope version,
/// whether it belongs to this library, whether its draft is valid and
/// encodes within the size limit, and whether it was made for this source
/// (identity and pixel size equal, duration within 0.1 s).
pub struct StoredDraftCheck {
    pub version: u8,
    pub same_library: bool,
    pub project_valid: bool,
    pub same_source: bool,
}

/// The state of a stored draft and why it cannot be used: none when absent;
/// usable when it parsed, has version 1, belongs to this library, holds a
/// valid draft and was made for this source; made for another source when
/// only the last fails; otherwise an invalid document.
pub open spec fn draft_verdict(
    stored: StoredBytes,
    parsed: Option<StoredDraftCheck>,
) -> (VideoProjectState, Option<VideoProjectInvalidReason>) {
    match stored {
        StoredBytes::Absent => (VideoProjectState::Absent, None),
        StoredBytes::Oversized(_) => (VideoProjectState::Invalid, Some(VideoProjectInvalidReason::InvalidDocument)),
        StoredBytes::Present(_) => match parsed {
            Some(check) => if check.version == 1 && check.same_library && check.project_valid {
                if check.same_source {
                    (VideoProjectState::Valid, None)
                } else {
                    (VideoProjectState::Invalid, Some(VideoProjectInvalidReason::SourceChanged))
                }
            } else {
                (VideoProjectState::Invalid, Some(VideoProjectInvalidReason::InvalidDocument))
            },
            None => (VideoProjectState::Invalid, Some(VideoProjectInvalidReason::InvalidDocument)),
        },
    }
}

/// A stored draft is offered as usable only when its bytes were read and
/// parsed, its envelope has version 1, it belongs to this library, its draft
/// is valid and it was made for this source; and every such draft is usable.
/// A parsed draft that fails validation, has another version or belongs to
/// another library is an invalid document, whatever its source; a draft
/// reported as made for another source is otherwise usable; only a missing
/// file is absent, and only a usable draft has no reason.
pub proof fn lemma_draft_verdict(stored: StoredBytes, parsed: Option<StoredDraftCheck>)
    ensures
        draft_verdict(stored, parsed).0 == VideoProjectState::Valid <==> (stored is Present && parsed is Some
            && parsed->0.version == 1 && parsed->0.same_library && parsed->0.project_valid && parsed->0.same_source),
        (stored is Present && parsed is Some && (!parsed->0.project_valid || parsed->0.version != 1
            || !parsed->0.same_library))
            ==> draft_verdict(stored, parsed) == (VideoProjectState::Invalid, Some(VideoProjectInvalidReason::InvalidDocument)),
        draft_verdict(stored, parsed).1 == Some(VideoProjectInvalidReason::SourceChanged) ==> (stored is Present
            && parsed is Some && parsed->0.version == 1 && parsed->0.same_library && parsed->0.project_valid
            && !parsed->0.same_source),
        (draft_verdict(stored, parsed).0 == VideoProjectState::Absent) == (stored is Absent),
        (draft_verdict(stored, parsed).1 is None) == (draft_verdict(stored, parsed).0 != VideoProjectState::Invalid),
        (!(stored is Absent) && parsed is None) ==> draft_verdict(stored, parsed) == (
            VideoProjectState::Invalid,
            Some(VideoProjectInvalidReason::InvalidDocument),
        ),
{
}

/// A stored draft as the editor sees it: its state, its revision, and why it
/// cannot be used.
pub struct DraftStatus {
    pub state: VideoProjectState,
    pub revision: String,
    pub reason: Option<VideoProjectInvalidReason>,
}

/// The status of the draft `stored`; `parsed` is what its bytes hold, when
/// they parse.
pub fn draft_status(
    source_json: &[u8],
    library_id: &[u8],
    generation: &[u8],
    stored: &StoredBytes,
    parsed: Option<StoredDraftCheck>,
) -> (status: DraftStatus)
    ensures
        status.revision@ == spec_revision(source_json@, library_id@, generation@, *stored),
        (status.state, status.reason) == draft_verdict(*stored, parsed),
        status.state == VideoProjectState::Valid ==> (*stored is Present && parsed is Some && parsed->0.version == 1
            && parsed->0.same_library && parsed->0.project_valid && parsed->0.same_source),
        (*stored is Present && parsed is Some && !parsed->0.project_valid) ==> (status.state
            == VideoProjectState::Invalid && status.reason == Some(VideoProjectInvalidReason::InvalidDocument)),
{
    let revision = revision_for(source_json, library_id, generation, stored);
    let (state, reason) = match stored {
        StoredBytes::Absent => (VideoProjectState::Absent, None),
        StoredBytes::Oversized(_) => (VideoProjectState::Invalid, Some(VideoProjectInvalidReason::InvalidDocument)),
        StoredBytes::Present(_) => match parsed {
            Some(check) => if check.version == 1 && check.same_library && check.project_valid {
                if check.same_source {
                    (VideoProjectState::Valid, None)
                } else {
                    (VideoProjectState::Invalid, Some(VideoProjectInvalidReason::SourceChanged))
                }
            } else {
                (VideoProjectState::Invalid, Some(VideoProjectInvalidReason::InvalidDocument))
            },
            None => (VideoProjectState::Invalid, Some(VideoProjectInvalidReason::InvalidDocument)),
        },
    };
    proof {
        lemma_draft_verdict(*stored, parsed);
    }
    DraftStatus { state, revision, reason }
}

/// Whether a draft may replace the stored one: the editor's `revision` must
/// be the current one, the current draft must not be invalid (a draft for
/// another source reports that), and the new draft must match the source.
pub fn check_save(current: &DraftStatus, revision: &str, matches_source: bool) -> (result: Result<(), VideoProjectError>)
    ensures
        current.revision@ != revision@ ==> result matches Err(VideoProjectError::Conflict),
        current.revision@ == revision@ && current.state == VideoProjectState::Invalid ==> if current.reason
            == Some(VideoProjectInvalidReason::SourceChanged) {
            result matches Err(VideoProjectError::SourceChanged)
        } else {
            result matches Err(VideoProjectError::Invalid)
        },
        current.revision@ == revision@ && current.state != VideoProjectState::Invalid && !matches_source
            ==> result matches Err(VideoProjectError::SourceChanged),
        current.revision@ == revision@ && current.state != VideoProjectState::Invalid && matches_source
            ==> result is Ok,
{
    if !str_equals(current.revision.as_str(), revision) {
        return Err(VideoProjectError::Conflict);
    }
    if current.state == VideoProjectState::Invalid {
        return match current.reason {
            Some(VideoProjectInvalidReason::SourceChanged) => Err(VideoProjectError::SourceChanged),
            _ => Err(VideoProjectError::Invalid),
        };
    }
    if !matches_source {
        return Err(VideoProjectError::SourceChanged);
    }
    Ok(())
}

/// Whether an encoded draft fits: at most 48 MiB.
pub fn check_encoded_size(len: usize) -> (result: Result<(), VideoProjectError>)
    ensures
        len <= MAX_VIDEO_PROJECT_BYTES ==> result is Ok,
        len > MAX_VIDEO_PROJECT_BYTES ==> result matches Err(VideoProjectError::Invalid),
{
    if len > MAX_VIDEO_PROJECT_BYTES {
        Err(VideoProjectError::Invalid)
    } else {
        Ok(())
    }
}

/// Whether a stored draft file fits: at most 48 MiB and 4 KiB.
pub fn check_stored_size(len: usize) -> (result: Result<(), VideoProjectError>)
    ensures
        len <= MAX_STORED_BYTES ==> result is Ok,
        len > MAX_STORED_BYTES ==> result matches Err(VideoProjectError::Invalid),
{
    if len > MAX_STORED_BYTES {
        Err(VideoProjectError::Invalid)
    } else {
        Ok(())
    }
}

} // verus!
