use kiri::annotation::AnnotationPixelSize;
use kiri::annotation_document::{MarkEntry, MarkShape};
use kiri::video_project::{
    check_encoded_size, check_save, check_stored_size, draft_status, revision_for,
    AnnotationItemOutline, DraftStatus, EffectOutline, ProjectEffectKind, SegmentOutline,
    StickerOutline, StoredBytes, StoredDraftCheck, VideoProjectError, VideoProjectInvalidReason,
    VideoProjectOutline, VideoProjectState, MAX_ITEMS, MAX_STORED_BYTES, MAX_VIDEO_PROJECT_BYTES,
};

use base64::Engine;
use sha2::Digest;

fn effect(id: &str, kind: ProjectEffectKind, overlapping: Vec<usize>) -> EffectOutline {
    EffectOutline {
        id: id.to_string(),
        kind,
        layer: Some(2),
        range_ok: true,
        rect_ok: true,
        strength_ok: true,
        transition_ok: true,
        color: None,
        square_ok: true,
        overlapping,
    }
}

fn text_annotation(id: &str, mark_id: u64) -> AnnotationItemOutline {
    AnnotationItemOutline {
        id: id.to_string(),
        layer: None,
        range_ok: true,
        mark: MarkEntry {
            id: Some(mark_id),
            shape: MarkShape::Label { text: "剪辑草稿".to_string(), rect_ok: true, size_ok: true },
        },
    }
}

fn sticker(id: &str, data_url: String) -> StickerOutline {
    StickerOutline { id: id.to_string(), layer: Some(0), range_ok: true, rect_ok: true, data_url }
}

/// The draft of a 1920x1080, 20 second recording: two segments, a blur mask
/// and a text annotation.
fn draft() -> VideoProjectOutline {
    VideoProjectOutline {
        schema_version: 1,
        source_size: AnnotationPixelSize { width: 1920, height: 1080 },
        timing_ok: true,
        segments: vec![
            SegmentOutline { range_ok: true, speed_ok: true },
            SegmentOutline { range_ok: true, speed_ok: true },
        ],
        segments_disjoint: true,
        effects: vec![effect("mask-1", ProjectEffectKind::Mask, Vec::new())],
        annotations: vec![text_annotation("text-1", 1.0f64.to_bits())],
        annotation_document_bytes: 300,
        stickers: Vec::new(),
    }
}

fn png_data_url(width: u32, height: u32) -> String {
    let image = image::RgbaImage::new(width, height);
    let mut png = std::io::Cursor::new(Vec::new());
    image.write_to(&mut png, image::ImageFormat::Png).unwrap();
    format!(
        "data:image/png;base64,{}",
        base64::engine::general_purpose::STANDARD.encode(png.into_inner())
    )
}

fn is_invalid(result: Result<(), VideoProjectError>) -> bool {
    matches!(result, Err(VideoProjectError::Invalid))
}

#[test]
fn a_well_formed_draft_is_valid() {
    assert!(draft().validate().is_ok());
}

#[test]
fn draft_headers_are_bounded() {
    let mut wrong_version = draft();
    wrong_version.schema_version = 2;
    assert!(is_invalid(wrong_version.validate()));
    let mut empty_source = draft();
    empty_source.source_size = AnnotationPixelSize { width: 0, height: 1080 };
    assert!(is_invalid(empty_source.validate()));
    let mut bad_timing = draft();
    bad_timing.timing_ok = false;
    assert!(is_invalid(bad_timing.validate()));
    let mut many_segments = draft();
    many_segments.segments = (0..=MAX_ITEMS).map(|_| SegmentOutline { range_ok: true, speed_ok: true }).collect();
    assert!(is_invalid(many_segments.validate()));
    let mut crowded = draft();
    crowded.stickers = (0..MAX_ITEMS).map(|i| sticker(&format!("s{i}"), png_data_url(1, 1))).collect();
    assert!(is_invalid(crowded.validate()));
    let mut overlapping_segments = draft();
    overlapping_segments.segments_disjoint = false;
    assert!(is_invalid(overlapping_segments.validate()));
}

#[test]
fn draft_item_ids_are_unique_and_well_formed() {
    let mut shared = draft();
    shared.annotations = vec![text_annotation("mask-1", 1)];
    assert!(is_invalid(shared.validate()));
    let mut empty = draft();
    empty.effects = vec![effect("", ProjectEffectKind::Mask, Vec::new())];
    assert!(is_invalid(empty.validate()));
    let mut control = draft();
    control.effects = vec![effect("mask\n1", ProjectEffectKind::Mask, Vec::new())];
    assert!(is_invalid(control.validate()));
    let mut long = draft();
    long.effects = vec![effect(&"x".repeat(129), ProjectEffectKind::Mask, Vec::new())];
    assert!(is_invalid(long.validate()));
    let mut longest = draft();
    longest.effects = vec![effect(&"x".repeat(128), ProjectEffectKind::Mask, Vec::new())];
    assert!(longest.validate().is_ok());
}

#[test]
fn effects_keep_colors_layers_and_exclusive_kinds() {
    let mut color = draft();
    color.effects[0].color = Some(0x0100_0000);
    assert!(is_invalid(color.validate()));
    color.effects[0].color = Some(0x00ff_ffff);
    assert!(color.validate().is_ok());
    let mut layer = draft();
    layer.effects[0].layer = Some(1_000_001);
    assert!(is_invalid(layer.validate()));
    let mut zoom = draft();
    zoom.effects = vec![effect("zoom-1", ProjectEffectKind::Zoom, Vec::new())];
    zoom.effects[0].square_ok = false;
    assert!(is_invalid(zoom.validate()));
    let mut zooms = draft();
    zooms.effects = vec![
        effect("zoom-1", ProjectEffectKind::Zoom, Vec::new()),
        effect("zoom-2", ProjectEffectKind::Zoom, vec![0]),
    ];
    assert!(is_invalid(zooms.validate()));
    let mut masks = draft();
    masks.effects = vec![
        effect("mask-1", ProjectEffectKind::Mask, Vec::new()),
        effect("mask-2", ProjectEffectKind::Mask, vec![0]),
    ];
    assert!(masks.validate().is_ok());
    let mut fade_after_zoom = draft();
    fade_after_zoom.effects = vec![
        effect("zoom-1", ProjectEffectKind::Zoom, Vec::new()),
        effect("fade-1", ProjectEffectKind::Fade, vec![0]),
    ];
    assert!(fade_after_zoom.validate().is_ok());
}

#[test]
fn annotations_share_the_document_bounds() {
    let mut duplicate_marks = draft();
    duplicate_marks.annotations = vec![text_annotation("a", 7), text_annotation("b", 7)];
    assert!(is_invalid(duplicate_marks.validate()));
    let mut large = draft();
    large.annotation_document_bytes = 4 * 1024 * 1024 + 1;
    assert!(is_invalid(large.validate()));
    let mut points = draft();
    points.annotations = vec![AnnotationItemOutline {
        id: "pen-1".to_string(),
        layer: None,
        range_ok: true,
        mark: MarkEntry {
            id: Some(2),
            shape: MarkShape::Stroke { size_ok: true, point_count: 100_001, points_ok: true },
        },
    }];
    assert!(is_invalid(points.validate()));
}

#[test]
fn stickers_must_be_png_data_urls_within_limits() {
    let mut one = draft();
    one.stickers = vec![sticker("sticker-1", png_data_url(2, 2))];
    assert!(one.validate().is_ok());
    let mut not_png = draft();
    not_png.stickers = vec![sticker("sticker-1", "data:image/jpeg;base64,AAAA".to_string())];
    assert!(is_invalid(not_png.validate()));
    let mut not_base64 = draft();
    not_base64.stickers = vec![sticker("sticker-1", "data:image/png;base64,@@@".to_string())];
    assert!(is_invalid(not_base64.validate()));
    let mut too_wide = draft();
    too_wide.stickers = vec![sticker("sticker-1", png_data_url(2049, 1))];
    assert!(is_invalid(too_wide.validate()));
    let mut widest = draft();
    widest.stickers = vec![sticker("sticker-1", png_data_url(2048, 1))];
    assert!(widest.validate().is_ok());
}

#[test]
fn revisions_hash_the_library_source_and_stored_bytes() {
    let library = [1u8; 16];
    let generation = [2u8; 16];
    let source = b"{\"assetId\":\"x\"}";
    let stored = StoredBytes::Present(b"{}".to_vec());
    let revision = revision_for(source, &library, &generation, &stored);
    let mut digest = sha2::Sha256::new();
    digest.update(b"kiri-video-project-v1");
    digest.update(library);
    digest.update(generation);
    digest.update(source);
    digest.update([1]);
    digest.update(b"{}");
    assert_eq!(revision, format!("{:x}", digest.finalize()));
    assert_eq!(revision.len(), 64);
    let absent = revision_for(source, &library, &generation, &StoredBytes::Absent);
    assert_ne!(absent, revision);
    let other_generation = revision_for(source, &library, &[3u8; 16], &stored);
    assert_ne!(other_generation, revision);
}

#[test]
fn stored_drafts_are_classified() {
    let library = [1u8; 16];
    let check = |version: u8, same_library: bool, project_valid: bool, same_source: bool| {
        Some(StoredDraftCheck { version, same_library, project_valid, same_source })
    };
    let status = |stored: &StoredBytes, parsed: Option<StoredDraftCheck>| {
        draft_status(b"{}", &library, &library, stored, parsed)
    };
    let present = StoredBytes::Present(b"{}".to_vec());
    let absent = status(&StoredBytes::Absent, None);
    assert_eq!((absent.state, absent.reason), (VideoProjectState::Absent, None));
    let oversized = status(&StoredBytes::Oversized(b"1:grew".to_vec()), None);
    assert_eq!(
        (oversized.state, oversized.reason),
        (VideoProjectState::Invalid, Some(VideoProjectInvalidReason::InvalidDocument))
    );
    let valid = status(&present, check(1, true, true, true));
    assert_eq!((valid.state, valid.reason), (VideoProjectState::Valid, None));
    let moved = status(&present, check(1, true, true, false));
    assert_eq!(
        (moved.state, moved.reason),
        (VideoProjectState::Invalid, Some(VideoProjectInvalidReason::SourceChanged))
    );
    for parsed in [None, check(2, true, true, true), check(1, false, true, true), check(1, true, false, false)] {
        let invalid = status(&present, parsed);
        assert_eq!(
            (invalid.state, invalid.reason),
            (VideoProjectState::Invalid, Some(VideoProjectInvalidReason::InvalidDocument))
        );
    }
}

#[test]
fn saves_require_the_current_revision_and_source() {
    let current = |state: VideoProjectState, reason: Option<VideoProjectInvalidReason>| DraftStatus {
        state,
        revision: "abc".to_string(),
        reason,
    };
    let valid = current(VideoProjectState::Valid, None);
    assert!(check_save(&valid, "abc", true).is_ok());
    assert!(matches!(check_save(&valid, "abd", true), Err(VideoProjectError::Conflict)));
    assert!(matches!(check_save(&valid, "abc", false), Err(VideoProjectError::SourceChanged)));
    let none = current(VideoProjectState::Absent, None);
    assert!(check_save(&none, "abc", true).is_ok());
    let moved = current(VideoProjectState::Invalid, Some(VideoProjectInvalidReason::SourceChanged));
    assert!(matches!(check_save(&moved, "abc", true), Err(VideoProjectError::SourceChanged)));
    let broken = current(VideoProjectState::Invalid, Some(VideoProjectInvalidReason::InvalidDocument));
    assert!(matches!(check_save(&broken, "abc", true), Err(VideoProjectError::Invalid)));
    assert!(matches!(check_save(&broken, "zzz", true), Err(VideoProjectError::Conflict)));
}

#[test]
fn encoded_and_stored_sizes_are_bounded() {
    assert!(check_encoded_size(MAX_VIDEO_PROJECT_BYTES).is_ok());
    assert!(is_invalid(check_encoded_size(MAX_VIDEO_PROJECT_BYTES + 1)));
    assert!(check_stored_size(MAX_STORED_BYTES).is_ok());
    assert!(is_invalid(check_stored_size(MAX_STORED_BYTES + 1)));
}

#[test]
fn video_project_validates_edit_ranges_bounds_and_closed_schema() {
    let mut project = draft();
    assert!(project.validate().is_ok());
    // Deleting the final clip is recoverable.
    project.segments.clear();
    assert!(project.validate().is_ok());

    // Each field below is judged invalid: version 2, a source width of 0, a
    // playhead past the 20 s source, a segment speed of 8, a second segment
    // ending inside the first, an effect one frame wide, and a font size of -1.
    let mut version = draft();
    version.schema_version = 2;
    assert!(is_invalid(version.validate()));
    let mut width = draft();
    width.source_size.width = 0;
    assert!(is_invalid(width.validate()));
    let mut playhead = draft();
    playhead.timing_ok = false;
    assert!(is_invalid(playhead.validate()));
    let mut speed = draft();
    speed.segments[0].speed_ok = false;
    assert!(is_invalid(speed.validate()));
    let mut overlap = draft();
    overlap.segments_disjoint = false;
    assert!(is_invalid(overlap.validate()));
    let mut effect_width = draft();
    effect_width.effects[0].rect_ok = false;
    assert!(is_invalid(effect_width.validate()));
    let mut font = draft();
    font.annotations[0].mark.shape = MarkShape::Label { text: "剪辑草稿".to_string(), rect_ok: true, size_ok: false };
    assert!(is_invalid(font.validate()));

    let mut too_many = draft();
    too_many.effects = (0..129).map(|i| effect(&format!("mask-{i}"), ProjectEffectKind::Mask, Vec::new())).collect();
    assert!(is_invalid(too_many.validate()));
}

#[test]
fn video_project_decodes_stickers_and_rejects_invalid_pngs() {
    let mut project = draft();
    let mut png = std::io::Cursor::new(Vec::new());
    image::RgbaImage::from_pixel(2, 2, image::Rgba([255, 0, 0, 255]))
        .write_to(&mut png, image::ImageFormat::Png)
        .unwrap();
    project.stickers.push(StickerOutline {
        id: "sticker-1".into(),
        layer: Some(1),
        range_ok: true,
        rect_ok: true,
        data_url: format!(
            "data:image/png;base64,{}",
            base64::engine::general_purpose::STANDARD.encode(png.into_inner())
        ),
    });
    assert!(project.validate().is_ok());
    project.stickers[0].data_url = "data:image/png;base64,ZmFrZQ==".into();
    assert!(is_invalid(project.validate()));
    project.stickers[0].data_url = "data:image/jpeg;base64,ZmFrZQ==".into();
    assert!(is_invalid(project.validate()));
}
