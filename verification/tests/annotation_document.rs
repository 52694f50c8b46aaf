use kiri::annotation::{AnnotationPixelSize, MAX_ANNOTATION_DOCUMENT_BYTES};
use kiri::annotation_document::{
    check_document_size, AnnotationDocumentError, AnnotationOutline, MarkEntry, MarkShape,
    MAX_MARKS, MAX_POINTS_PER_MARK, MAX_TOTAL_POINTS, MAX_TOTAL_TEXT_UNITS,
};

fn source() -> AnnotationPixelSize {
    AnnotationPixelSize { width: 200, height: 160 }
}

fn outline(marks: Vec<MarkEntry>) -> AnnotationOutline {
    AnnotationOutline { schema_version: 1, canvas_ok: true, source_pixels: source(), marks }
}

fn stroke(id: u64, point_count: usize) -> MarkEntry {
    MarkEntry {
        id: Some(id),
        shape: MarkShape::Stroke { size_ok: true, point_count, points_ok: true },
    }
}

fn segment(id: u64) -> MarkEntry {
    MarkEntry {
        id: Some(id),
        shape: MarkShape::Segment { size_ok: true, start_ok: true, end_ok: true },
    }
}

fn label(id: u64, text: &str) -> MarkEntry {
    MarkEntry {
        id: Some(id),
        shape: MarkShape::Label { text: text.to_string(), rect_ok: true, size_ok: true },
    }
}

fn bits(id: f64) -> u64 {
    id.to_bits()
}

#[test]
fn parses_every_supported_mark_and_round_trips() {
    let document = outline(vec![
        stroke(bits(1.0), 2),
        MarkEntry { id: Some(bits(2.0)), shape: MarkShape::Frame { size_ok: true, rect_ok: true } },
        segment(bits(3.0)),
        segment(bits(4.0)),
        label(bits(5.0), "Kiri"),
        stroke(bits(6.0), 1),
    ]);
    assert_eq!(document.validate(), Ok(()));
    assert!(document.has_marks());
    assert!(!outline(Vec::new()).has_marks());
}

#[test]
fn rejects_unknown_fields_kinds_enums_and_duplicate_ids() {
    let duplicate = outline(vec![segment(bits(1.0)), segment(bits(1.0))]);
    assert_eq!(duplicate.validate(), Err(AnnotationDocumentError::MarkId));
    // Signed zero is normalized to zero before its bits are taken.
    let zeros = outline(vec![segment(bits(0.0)), segment(bits(0.0))]);
    assert_eq!(zeros.validate(), Err(AnnotationDocumentError::MarkId));
    let missing = outline(vec![MarkEntry {
        id: None,
        shape: MarkShape::Segment { size_ok: true, start_ok: true, end_ok: true },
    }]);
    assert_eq!(missing.validate(), Err(AnnotationDocumentError::MarkId));
}

#[test]
fn rejects_bad_headers_in_order() {
    let mut document = outline(vec![segment(1)]);
    document.schema_version = 2;
    document.canvas_ok = false;
    assert_eq!(document.validate(), Err(AnnotationDocumentError::UnsupportedVersion));
    document.schema_version = 1;
    assert_eq!(document.validate(), Err(AnnotationDocumentError::CanvasDimensions));
    document.canvas_ok = true;
    document.source_pixels = AnnotationPixelSize { width: 0, height: 160 };
    assert_eq!(document.validate(), Err(AnnotationDocumentError::SourceDimensions));
    document.source_pixels = AnnotationPixelSize { width: 65_537, height: 160 };
    assert_eq!(document.validate(), Err(AnnotationDocumentError::SourceDimensions));
    document.source_pixels = AnnotationPixelSize { width: 65_536, height: 65_536 };
    assert_eq!(document.validate(), Ok(()));
    let many = outline((0..(MAX_MARKS as u64 + 1)).map(segment).collect());
    assert_eq!(many.validate(), Err(AnnotationDocumentError::TooManyMarks));
    let most = outline((0..MAX_MARKS as u64).map(segment).collect());
    assert_eq!(most.validate(), Ok(()));
}

#[test]
fn rejects_bad_mark_shapes() {
    let empty_stroke = outline(vec![stroke(1, 0)]);
    assert_eq!(empty_stroke.validate(), Err(AnnotationDocumentError::PointList));
    let long_stroke = outline(vec![stroke(1, MAX_POINTS_PER_MARK + 1)]);
    assert_eq!(long_stroke.validate(), Err(AnnotationDocumentError::PointList));
    let bad_width = outline(vec![MarkEntry {
        id: Some(1),
        shape: MarkShape::Stroke { size_ok: false, point_count: 0, points_ok: false },
    }]);
    assert_eq!(bad_width.validate(), Err(AnnotationDocumentError::MarkSize));
    let bad_point = outline(vec![MarkEntry {
        id: None,
        shape: MarkShape::Segment { size_ok: true, start_ok: true, end_ok: false },
    }]);
    assert_eq!(bad_point.validate(), Err(AnnotationDocumentError::Point));
    let bad_rect = outline(vec![MarkEntry {
        id: Some(1),
        shape: MarkShape::Label { text: "a".to_string(), rect_ok: false, size_ok: false },
    }]);
    assert_eq!(bad_rect.validate(), Err(AnnotationDocumentError::Rectangle));
    let long_text = outline(vec![label(1, &"a".repeat(MAX_TOTAL_TEXT_UNITS + 1))]);
    assert_eq!(long_text.validate(), Err(AnnotationDocumentError::Text));
}

#[test]
fn enforces_point_and_text_budgets_over_the_document() {
    let points = outline(vec![stroke(1, MAX_TOTAL_POINTS), stroke(2, 1)]);
    assert_eq!(points.validate(), Err(AnnotationDocumentError::TooManyPoints));
    let exact = outline(vec![stroke(1, MAX_TOTAL_POINTS - 1), stroke(2, 1)]);
    assert_eq!(exact.validate(), Ok(()));
    // A character outside the basic plane counts as two UTF-16 units.
    let half = "😀".repeat(MAX_TOTAL_TEXT_UNITS / 4);
    let text = outline(vec![label(1, &half), label(2, &half), label(3, "a")]);
    assert_eq!(text.validate(), Err(AnnotationDocumentError::TooMuchText));
    let fits = outline(vec![label(1, &half), label(2, &half)]);
    assert_eq!(fits.validate(), Ok(()));
}

#[test]
fn validates_source_dimensions_and_canvas_ratio_against_the_image() {
    let document = outline(Vec::new());
    assert_eq!(document.validate_for_image_pixels(200, 160, true), Ok(()));
    assert_eq!(
        document.validate_for_image_pixels(201, 160, true),
        Err(AnnotationDocumentError::ImageMismatch)
    );
    assert_eq!(
        document.validate_for_image_pixels(-200, -160, true),
        Err(AnnotationDocumentError::ImageMismatch)
    );
    assert_eq!(
        document.validate_for_image_pixels(200, 160, false),
        Err(AnnotationDocumentError::CanvasMismatch)
    );
}

#[test]
fn rejects_non_finite_programmatic_geometry_and_oversized_json() {
    // A canvas side that is not a finite number fails its verdict.
    let mut document = outline(vec![MarkEntry {
        id: Some(bits(1.0)),
        shape: MarkShape::Frame { size_ok: true, rect_ok: true },
    }]);
    assert_eq!(document.validate(), Ok(()));
    document.canvas_ok = false;
    assert!(document.validate().is_err());
    assert!(check_document_size(MAX_ANNOTATION_DOCUMENT_BYTES + 1).is_err());
}

#[test]
fn bounds_the_document_text_and_names_each_error() {
    assert_eq!(check_document_size(0), Err(AnnotationDocumentError::TooLarge));
    assert_eq!(check_document_size(1), Ok(()));
    assert_eq!(check_document_size(MAX_ANNOTATION_DOCUMENT_BYTES), Ok(()));
    assert_eq!(
        check_document_size(MAX_ANNOTATION_DOCUMENT_BYTES + 1),
        Err(AnnotationDocumentError::TooLarge)
    );
    assert_eq!(
        AnnotationDocumentError::MarkId.to_string(),
        "The annotation mark id is invalid."
    );
    assert_eq!(
        AnnotationDocumentError::CanvasMismatch.to_string(),
        "The annotation canvas does not match the edited image."
    );
}
