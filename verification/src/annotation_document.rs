//! The bounds of annotation documents: which documents are accepted, and which
//! error a rejected one reports first.
//!
//! A document's geometry is floating point; what the checks read of it comes
//! here as verdicts (`size_ok`, `rect_ok`, ...), mark ids as the bits of their
//! normalized value. Everything else is decided here: the order of the checks,
//! point and text budgets, and the uniqueness of ids.

use vstd::prelude::*;

use crate::annotation::{AnnotationPixelSize, ANNOTATION_SCHEMA_VERSION, MAX_ANNOTATION_DOCUMENT_BYTES};
use crate::text::{utf16_len, utf16_len_within};

verus! {

/// Most marks in one document.
pub const MAX_MARKS: usize = 2048;
/// Most points in one pen or mosaic stroke.
pub const MAX_POINTS_PER_MARK: usize = 100000;
/// Most points over all strokes of a document.
pub const MAX_TOTAL_POINTS: usize = 100000;
/// Most UTF-16 code units over all text of a document.
pub const MAX_TOTAL_TEXT_UNITS: usize = 65536;
/// Largest side of the source image, in pixels.
pub const MAX_SOURCE_DIMENSION: u32 = 65536;

/// Why an annotation document was rejected.
#[derive(Debug, Clone, Copy, PartialEq, Eq, Structural)]
pub enum AnnotationDocumentError {
    UnsupportedVersion,
    CanvasDimensions,
    SourceDimensions,
    TooManyMarks,
    MarkSize,
    PointList,
    Point,
    Rectangle,
    Text,
    MarkId,
    TooManyPoints,
    TooMuchText,
    TooLarge,
    Malformed,
    Unencodable,
    ImageMismatch,
    CanvasMismatch,
}

impl AnnotationDocumentError {
    /// The message reported for this error.
    pub fn to_string(&self) -> (message: String)
        ensures
            message@ == self.message(),
    {
        let text = match self {
            AnnotationDocumentError::UnsupportedVersion => "The annotation document version is unsupported.",
            AnnotationDocumentError::CanvasDimensions => "The annotation canvas dimensions are invalid.",
            AnnotationDocumentError::SourceDimensions => "The annotation source dimensions are invalid.",
            AnnotationDocumentError::TooManyMarks => "The annotation document contains too many marks.",
            AnnotationDocumentError::MarkSize => "The annotation mark size is invalid.",
            AnnotationDocumentError::PointList => "The annotation point list is invalid.",
            AnnotationDocumentError::Point => "The annotation point is invalid.",
            AnnotationDocumentError::Rectangle => "The annotation rectangle is invalid.",
            AnnotationDocumentError::Text => "The annotation text is invalid.",
            AnnotationDocumentError::MarkId => "The annotation mark id is invalid.",
            AnnotationDocumentError::TooManyPoints => "The annotation document contains too many points.",
            AnnotationDocumentError::TooMuchText => "The annotation document contains too much text.",
            AnnotationDocumentError::TooLarge => "The annotation document is too large.",
            AnnotationDocumentError::Malformed => "The annotation document is invalid.",
            AnnotationDocumentError::Unencodable => "The annotation document could not be encoded.",
            AnnotationDocumentError::ImageMismatch => "The annotation document does not match the edited image.",
            AnnotationDocumentError::CanvasMismatch => "The annotation canvas does not match the edited image.",
        };
        String::from_str(text)
    }

    /// The message of this error.
    pub open spec fn message(self) -> Seq<char> {
        match self {
            AnnotationDocumentError::UnsupportedVersion => "The annotation document version is unsupported."@,
            AnnotationDocumentError::CanvasDimensions => "The annotation canvas dimensions are invalid."@,
            AnnotationDocumentError::SourceDimensions => "The annotation source dimensions are invalid."@,
            AnnotationDocumentError::TooManyMarks => "The annotation document contains too many marks."@,
            AnnotationDocumentError::MarkSize => "The annotation mark size is invalid."@,
            AnnotationDocumentError::PointList => "The annotation point list is invalid."@,
            AnnotationDocumentError::Point => "The annotation point is invalid."@,
            AnnotationDocumentError::Rectangle => "The annotation rectangle is invalid."@,
            AnnotationDocumentError::Text => "The annotation text is invalid."@,
            AnnotationDocumentError::MarkId => "The annotation mark id is invalid."@,
            AnnotationDocumentError::TooManyPoints => "The annotation document contains too many points."@,
            AnnotationDocumentError::TooMuchText => "The annotation document contains too much text."@,
            AnnotationDocumentError::TooLarge => "The annotation document is too large."@,
            AnnotationDocumentError::Malformed => "The annotation document is invalid."@,
            AnnotationDocumentError::Unencodable => "The annotation document could not be encoded."@,
            AnnotationDocumentError::ImageMismatch => "The annotation document does not match the edited image."@,
            AnnotationDocumentError::CanvasMismatch => "The annotation canvas does not match the edited image."@,
        }
    }
}

/// What the checks read of one mark.
pub enum MarkShape {
    /// A pen or mosaic stroke: whether its width or brush diameter is a
    /// valid visual size, how many points it has, and whether every point
    /// lies within the coordinate limit.
    Stroke { size_ok: bool, point_count: usize, points_ok: bool },
    /// A rectangle: whether its line width and its rectangle are valid.
    Frame { size_ok: bool, rect_ok: bool },
    /// A line or an arrow: whether its width and both ends are valid.
    Segment { size_ok: bool, start_ok: bool, end_ok: bool },
    /// A text box: its text, and whether its rectangle and font size are valid.
    Label { text: String, rect_ok: bool, size_ok: bool },
}

/// One mark of a document: its id, as the bits of its normalized value when
/// it is a finite number in `0..=2^53 - 1` (none otherwise), and its shape.
pub struct MarkEntry {
    pub id: Option<u64>,
    pub shape: MarkShape,
}

impl MarkShape {
    /// A copy of this shape.
    pub fn duplicate(&self) -> (copy: MarkShape)
        ensures
            copy == *self,
    {
        match self {
            MarkShape::Stroke { size_ok, point_count, points_ok } => MarkShape::Stroke {
                size_ok: *size_ok,
                point_count: *point_count,
                points_ok: *points_ok,
            },
            MarkShape::Frame { size_ok, rect_ok } => MarkShape::Frame { size_ok: *size_ok, rect_ok: *rect_ok },
            MarkShape::Segment { size_ok, start_ok, end_ok } => MarkShape::Segment {
                size_ok: *size_ok,
                start_ok: *start_ok,
                end_ok: *end_ok,
            },
            MarkShape::Label { text, rect_ok, size_ok } => MarkShape::Label {
                text: text.clone(),
                rect_ok: *rect_ok,
                size_ok: *size_ok,
            },
        }
    }
}

impl MarkEntry {
    /// A copy of this mark.
    pub fn duplicate(&self) -> (copy: MarkEntry)
        ensures
            copy == *self,
    {
        MarkEntry { id: self.id, shape: self.shape.duplicate() }
    }
}

/// What the checks read of a document: its schema version, whether both
/// canvas sides are valid, the source image's pixel size, and its marks.
pub struct AnnotationOutline {
    pub schema_version: u8,
    pub canvas_ok: bool,
    pub source_pixels: AnnotationPixelSize,
    pub marks: Vec<MarkEntry>,
}

/// The first check that a mark's own shape fails.
pub open spec fn shape_error(shape: MarkShape) -> Option<AnnotationDocumentError> {
    match shape {
        MarkShape::Stroke { size_ok, point_count, points_ok } => if !size_ok {
            Some(AnnotationDocumentError::MarkSize)
        } else if !(1 <= point_count <= MAX_POINTS_PER_MARK) {
            Some(AnnotationDocumentError::PointList)
        } else if !points_ok {
            Some(AnnotationDocumentError::Point)
        } else {
            None
        },
        MarkShape::Frame { size_ok, rect_ok } => if !size_ok {
            Some(AnnotationDocumentError::MarkSize)
        } else if !rect_ok {
            Some(AnnotationDocumentError::Rectangle)
        } else {
            None
        },
        MarkShape::Segment { size_ok, start_ok, end_ok } => if !size_ok {
            Some(AnnotationDocumentError::MarkSize)
        } else if !start_ok || !end_ok {
            Some(AnnotationDocumentError::Point)
        } else {
            None
        },
        MarkShape::Label { text, rect_ok, size_ok } => if utf16_len(text@) > MAX_TOTAL_TEXT_UNITS {
            Some(AnnotationDocumentError::Text)
        } else if !rect_ok {
            Some(AnnotationDocumentError::Rectangle)
        } else if !size_ok {
            Some(AnnotationDocumentError::MarkSize)
        } else {
            None
        },
    }
}

/// Points a mark adds to the document's total.
pub open spec fn shape_points(shape: MarkShape) -> nat {
    match shape {
        MarkShape::Stroke { point_count, .. } => point_count as nat,
        _ => 0,
    }
}

/// UTF-16 code units a mark adds to the document's text total.
pub open spec fn shape_text_units(shape: MarkShape) -> nat {
    match shape {
        MarkShape::Label { text, .. } => utf16_len(text@),
        _ => 0,
    }
}

/// Points over all of `marks`.
pub open spec fn total_points(marks: Seq<MarkEntry>) -> nat
    decreases marks.len(),
{
    if marks.len() == 0 {
        0
    } else {
        total_points(marks.drop_last()) + shape_points(marks.last().shape)
    }
}

/// Text code units over all of `marks`.
pub open spec fn total_text_units(marks: Seq<MarkEntry>) -> nat
    decreases marks.len(),
{
    if marks.len() == 0 {
        0
    } else {
        total_text_units(marks.drop_last()) + shape_text_units(marks.last().shape)
    }
}

/// Whether one of `marks` has the id `id`.
pub open spec fn id_used(marks: Seq<MarkEntry>, id: u64) -> bool {
    exists|j: int| 0 <= j < marks.len() && (#[trigger] marks[j]).id == Some(id)
}

/// The first check that `mark` fails when it follows the accepted marks
/// `prior`: its shape, then its id (missing or already used), then the point
/// and text budgets of the document so far.
pub open spec fn mark_error(prior: Seq<MarkEntry>, mark: MarkEntry) -> Option<AnnotationDocumentError> {
    match shape_error(mark.shape) {
        Some(e) => Some(e),
        None => match mark.id {
            None => Some(AnnotationDocumentError::MarkId),
            Some(id) => if id_used(prior, id) {
                Some(AnnotationDocumentError::MarkId)
            } else if total_points(prior) + shape_points(mark.shape) > MAX_TOTAL_POINTS {
                Some(AnnotationDocumentError::TooManyPoints)
            } else if total_text_units(prior) + shape_text_units(mark.shape) > MAX_TOTAL_TEXT_UNITS {
                Some(AnnotationDocumentError::TooMuchText)
            } else {
                None
            },
        },
    }
}

/// The marks checked in order: the error of the first mark that fails.
pub open spec fn marks_check(marks: Seq<MarkEntry>) -> Result<(), AnnotationDocumentError>
    decreases marks.len(),
{
    if marks.len() == 0 {
        Ok(())
    } else {
        match marks_check(marks.drop_last()) {
            Err(e) => Err(e),
            Ok(_) => match mark_error(marks.drop_last(), marks.last()) {
                Some(e) => Err(e),
                None => Ok(()),
            },
        }
    }
}

/// The first document-wide check that fails: the version, the canvas, the
/// source pixel size (each side in `1..=65536`), then the number of marks.
pub open spec fn header_error(
    schema_version: u8,
    canvas_ok: bool,
    source: AnnotationPixelSize,
    mark_count: nat,
) -> Option<AnnotationDocumentError> {
    if schema_version != ANNOTATION_SCHEMA_VERSION {
        Some(AnnotationDocumentError::UnsupportedVersion)
    } else if !canvas_ok {
        Some(AnnotationDocumentError::CanvasDimensions)
    } else if source.width == 0 || source.height == 0 || source.width > MAX_SOURCE_DIMENSION
        || source.height > MAX_SOURCE_DIMENSION {
        Some(AnnotationDocumentError::SourceDimensions)
    } else if mark_count > MAX_MARKS {
        Some(AnnotationDocumentError::TooManyMarks)
    } else {
        None
    }
}

/// Whether a document passes, or the first error it reports.
pub open spec fn outline_check(
    schema_version: u8,
    canvas_ok: bool,
    source: AnnotationPixelSize,
    marks: Seq<MarkEntry>,
) -> Result<(), AnnotationDocumentError> {
    match header_error(schema_version, canvas_ok, source, marks.len()) {
        Some(e) => Err(e),
        None => marks_check(marks),
    }
}

/// Once a prefix of the marks fails, the whole list fails with its error.
proof fn lemma_marks_check_failure_persists(marks: Seq<MarkEntry>, i: int)
    requires
        0 <= i <= marks.len(),
        marks_check(marks.take(i)) is Err,
    ensures
        marks_check(marks) == marks_check(marks.take(i)),
    decreases marks.len() - i,
{
    if i == marks.len() {
        assert(marks.take(i) =~= marks);
    } else {
        assert(marks.drop_last().take(i) =~= marks.take(i));
        lemma_marks_check_failure_persists(marks.drop_last(), i);
    }
}

/// Every accepted list of marks is bounded: each mark has an id and a valid
/// shape, no two marks share an id, and the point and text totals stay
/// within the document's budgets.
pub proof fn lemma_accepted_marks_are_bounded(marks: Seq<MarkEntry>)
    requires
        marks_check(marks) is Ok,
    ensures
        forall|i: int| 0 <= i < marks.len() ==> (#[trigger] marks[i]).id is Some && shape_error(marks[i].shape) is None,
        forall|i: int, j: int| 0 <= i < j < marks.len() ==> (#[trigger] marks[i]).id != (#[trigger] marks[j]).id,
        total_points(marks) <= MAX_TOTAL_POINTS,
        total_text_units(marks) <= MAX_TOTAL_TEXT_UNITS,
    decreases marks.len(),
{
    if marks.len() > 0 {
        let prior = marks.drop_last();
        lemma_accepted_marks_are_bounded(prior);
        assert forall|i: int| 0 <= i < marks.len() implies (#[trigger] marks[i]).id is Some && shape_error(marks[i].shape) is None by {
            if i < prior.len() {
                assert(marks[i] == prior[i]);
            }
        }
        assert forall|i: int, j: int| 0 <= i < j < marks.len() implies (#[trigger] marks[i]).id != (#[trigger] marks[j]).id by {
            assert(marks[i] == prior[i]);
            if j < prior.len() {
                assert(marks[j] == prior[j]);
            } else {
                let id = marks.last().id->0;
                if marks[i].id == Some(id) {
                    assert(id_used(prior, id));
                }
            }
        }
    }
}

/// An accepted document is well formed throughout: it has the supported
/// version, valid canvas sides, a source of `1..=65536` pixels a side and at
/// most `MAX_MARKS` marks, each with its own id, and every mark's own parts
/// are valid: a stroke has a valid size and `1..=MAX_POINTS_PER_MARK` points,
/// all within limits; a rectangle has a valid line width and rectangle; a
/// line or arrow has a valid width and both ends valid; a text box has at
/// most `MAX_TOTAL_TEXT_UNITS` code units, a valid rectangle and font size.
pub proof fn lemma_accepted_document_is_well_formed(
    schema_version: u8,
    canvas_ok: bool,
    source: AnnotationPixelSize,
    marks: Seq<MarkEntry>,
)
    requires
        outline_check(schema_version, canvas_ok, source, marks) is Ok,
    ensures
        schema_version == ANNOTATION_SCHEMA_VERSION,
        canvas_ok,
        1 <= source.width <= MAX_SOURCE_DIMENSION,
        1 <= source.height <= MAX_SOURCE_DIMENSION,
        marks.len() <= MAX_MARKS,
        forall|i: int| 0 <= i < marks.len() ==> (#[trigger] marks[i]).id is Some,
        forall|i: int, j: int| 0 <= i < j < marks.len() ==> (#[trigger] marks[i]).id != (#[trigger] marks[j]).id,
        forall|i: int| 0 <= i < marks.len() ==> match (#[trigger] marks[i]).shape {
            MarkShape::Stroke { size_ok, point_count, points_ok } => size_ok && 1 <= point_count
                <= MAX_POINTS_PER_MARK && points_ok,
            MarkShape::Frame { size_ok, rect_ok } => size_ok && rect_ok,
            MarkShape::Segment { size_ok, start_ok, end_ok } => size_ok && start_ok && end_ok,
            MarkShape::Label { text, rect_ok, size_ok } => utf16_len(text@) <= MAX_TOTAL_TEXT_UNITS && rect_ok
                && size_ok,
        },
        total_points(marks) <= MAX_TOTAL_POINTS,
        total_text_units(marks) <= MAX_TOTAL_TEXT_UNITS,
{
    lemma_accepted_marks_are_bounded(marks);
    assert forall|i: int| 0 <= i < marks.len() implies match (#[trigger] marks[i]).shape {
        MarkShape::Stroke { size_ok, point_count, points_ok } => size_ok && 1 <= point_count <= MAX_POINTS_PER_MARK
            && points_ok,
        MarkShape::Frame { size_ok, rect_ok } => size_ok && rect_ok,
        MarkShape::Segment { size_ok, start_ok, end_ok } => size_ok && start_ok && end_ok,
        MarkShape::Label { text, rect_ok, size_ok } => utf16_len(text@) <= MAX_TOTAL_TEXT_UNITS && rect_ok && size_ok,
    } by {
        assert(shape_error(marks[i].shape) is None);
    }
}

/// A document holding a rectangle or text box whose rectangle is invalid is
/// rejected; when that mark is the first fault (the header and the marks
/// before it pass, and its other parts checked first are valid), the error
/// is `Rectangle`.
pub proof fn lemma_invalid_rectangle_is_rejected(
    schema_version: u8,
    canvas_ok: bool,
    source: AnnotationPixelSize,
    marks: Seq<MarkEntry>,
    i: int,
)
    requires
        0 <= i < marks.len(),
        match marks[i].shape {
            MarkShape::Frame { rect_ok, .. } => !rect_ok,
            MarkShape::Label { rect_ok, .. } => !rect_ok,
            _ => false,
        },
    ensures
        outline_check(schema_version, canvas_ok, source, marks) is Err,
        (header_error(schema_version, canvas_ok, source, marks.len()) is None && marks_check(marks.take(i)) is Ok
            && match marks[i].shape {
            MarkShape::Frame { size_ok, .. } => size_ok,
            MarkShape::Label { text, .. } => utf16_len(text@) <= MAX_TOTAL_TEXT_UNITS,
            _ => false,
        }) ==> outline_check(schema_version, canvas_ok, source, marks) == Err::<(), AnnotationDocumentError>(
            AnnotationDocumentError::Rectangle,
        ),
{
    if outline_check(schema_version, canvas_ok, source, marks) is Ok {
        lemma_accepted_document_is_well_formed(schema_version, canvas_ok, source, marks);
        assert(false);
    }
    if header_error(schema_version, canvas_ok, source, marks.len()) is None && marks_check(marks.take(i)) is Ok
        && match marks[i].shape {
        MarkShape::Frame { size_ok, .. } => size_ok,
        MarkShape::Label { text, .. } => utf16_len(text@) <= MAX_TOTAL_TEXT_UNITS,
        _ => false,
    } {
        let prefix = marks.take(i + 1);
        assert(prefix.drop_last() =~= marks.take(i));
        assert(prefix.last() == marks[i]);
        assert(marks_check(prefix) == Err::<(), AnnotationDocumentError>(AnnotationDocumentError::Rectangle));
        lemma_marks_check_failure_persists(marks, i + 1);
    }
}

/// The first check that a mark's shape fails.
fn check_shape(shape: &MarkShape) -> (result: Result<usize, AnnotationDocumentError>)
    ensures
        match result {
            Ok(units) => shape_error(*shape) is None && units == shape_text_units(*shape),
            Err(e) => shape_error(*shape) == Some(e),
        },
{
    match shape {
        MarkShape::Stroke { size_ok, point_count, points_ok } => {
            if !*size_ok {
                Err(AnnotationDocumentError::MarkSize)
            } else if *point_count < 1 || *point_count > MAX_POINTS_PER_MARK {
                Err(AnnotationDocumentError::PointList)
            } else if !*points_ok {
                Err(AnnotationDocumentError::Point)
            } else {
                Ok(0)
            }
        },
        MarkShape::Frame { size_ok, rect_ok } => {
            if !*size_ok {
                Err(AnnotationDocumentError::MarkSize)
            } else if !*rect_ok {
                Err(AnnotationDocumentError::Rectangle)
            } else {
                Ok(0)
            }
        },
        MarkShape::Segment { size_ok, start_ok, end_ok } => {
            if !*size_ok {
                Err(AnnotationDocumentError::MarkSize)
            } else if !*start_ok || !*end_ok {
                Err(AnnotationDocumentError::Point)
            } else {
                Ok(0)
            }
        },
        MarkShape::Label { text, rect_ok, size_ok } => {
            match utf16_len_within(text.as_str(), MAX_TOTAL_TEXT_UNITS) {
                None => Err(AnnotationDocumentError::Text),
                Some(units) => if !*rect_ok {
                    Err(AnnotationDocumentError::Rectangle)
                } else if !*size_ok {
                    Err(AnnotationDocumentError::MarkSize)
                } else {
                    Ok(units)
                },
            }
        },
    }
}

/// Whether `ids` holds `id`.
fn holds_id(ids: &Vec<u64>, id: u64) -> (found: bool)
    ensures
        found == ids@.contains(id),
{
    let mut k: usize = 0;
    while k < ids.len()
        invariant
            k <= ids@.len(),
            forall|j: int| 0 <= j < k ==> ids@[j] != id,
        decreases ids@.len() - k,
    {
        if ids[k] == id {
            return true;
        }
        k = k + 1;
    }
    false
}

/// Checks the marks in order.
fn check_marks(marks: &Vec<MarkEntry>) -> (result: Result<(), AnnotationDocumentError>)
    ensures
        result == marks_check(marks@),
{
    let mut ids: Vec<u64> = Vec::new();
    let mut points: usize = 0;
    let mut text_units: usize = 0;
    let mut i: usize = 0;
    while i < marks.len()
        invariant
            i <= marks@.len(),
            marks_check(marks@.take(i as int)) is Ok,
            ids@.len() == i,
            forall|j: int| 0 <= j < i ==> marks@[j].id == Some(#[trigger] ids@[j]),
            points == total_points(marks@.take(i as int)),
            points <= MAX_TOTAL_POINTS,
            text_units == total_text_units(marks@.take(i as int)),
            text_units <= MAX_TOTAL_TEXT_UNITS,
        decreases marks@.len() - i,
    {
        let ghost prior = marks@.take(i as int);
        let ghost next = marks@.take(i + 1);
        proof {
            assert(next.drop_last() =~= prior);
            assert(next.last() == marks@[i as int]);
        }
        let mark = &marks[i];
        let outcome: Result<(), AnnotationDocumentError> = match check_shape(&mark.shape) {
            Err(e) => Err(e),
            Ok(units) => match mark.id {
                None => Err(AnnotationDocumentError::MarkId),
                Some(id) => {
                    let used = holds_id(&ids, id);
                    proof {
                        if used {
                            let k = choose|k: int| 0 <= k < ids@.len() && ids@[k] == id;
                            assert(prior[k].id == Some(id));
                        }
                        if id_used(prior, id) {
                            let k = choose|k: int| 0 <= k < prior.len() && (#[trigger] prior[k]).id == Some(id);
                            assert(marks@[k].id == Some(ids@[k]));
                            assert(ids@.contains(id));
                        }
                    }
                    let added = match &mark.shape {
                        MarkShape::Stroke { point_count, .. } => *point_count,
                        _ => 0,
                    };
                    if used {
                        Err(AnnotationDocumentError::MarkId)
                    } else if added > MAX_TOTAL_POINTS - points {
                        Err(AnnotationDocumentError::TooManyPoints)
                    } else if units > MAX_TOTAL_TEXT_UNITS - text_units {
                        Err(AnnotationDocumentError::TooMuchText)
                    } else {
                        ids.push(id);
                        points = points + added;
                        text_units = text_units + units;
                        Ok(())
                    }
                },
            },
        };
        proof {
            assert(marks_check(next) == match mark_error(prior, marks@[i as int]) {
                Some(e) => Err::<(), AnnotationDocumentError>(e),
                None => Ok(()),
            });
        }
        match outcome {
            Err(e) => {
                proof {
                    lemma_marks_check_failure_persists(marks@, i + 1);
                }
                return Err(e);
            },
            Ok(()) => {},
        }
        i = i + 1;
    }
    proof {
        assert(marks@.take(i as int) =~= marks@);
    }
    Ok(())
}

impl AnnotationOutline {
    /// Checks the document: version, canvas, source size and mark count, then
    /// each mark in order.
    pub fn validate(&self) -> (result: Result<(), AnnotationDocumentError>)
        ensures
            result == outline_check(self.schema_version, self.canvas_ok, self.source_pixels, self.marks@),
    {
        if self.schema_version != ANNOTATION_SCHEMA_VERSION {
            return Err(AnnotationDocumentError::UnsupportedVersion);
        }
        if !self.canvas_ok {
            return Err(AnnotationDocumentError::CanvasDimensions);
        }
        let source = self.source_pixels;
        if source.width == 0 || source.height == 0 || source.width > MAX_SOURCE_DIMENSION
            || source.height > MAX_SOURCE_DIMENSION {
            return Err(AnnotationDocumentError::SourceDimensions);
        }
        if self.marks.len() > MAX_MARKS {
            return Err(AnnotationDocumentError::TooManyMarks);
        }
        check_marks(&self.marks)
    }

    /// Whether the document has any mark.
    pub fn has_marks(&self) -> (any: bool)
        ensures
            any == (self.marks@.len() > 0),
    {
        self.marks.len() > 0
    }

    /// Checks the document against the image it belongs to: the document
    /// itself, then that the image's pixel size equals the source size, then
    /// the verdict on the canvas's aspect ratio.
    pub fn validate_for_image_pixels(
        &self,
        expected_width: i64,
        expected_height: i64,
        canvas_ratio_ok: bool,
    ) -> (result: Result<(), AnnotationDocumentError>)
        ensures
            result == match outline_check(self.schema_version, self.canvas_ok, self.source_pixels, self.marks@) {
                Err(e) => Err(e),
                Ok(_) => if !image_matches(self.source_pixels, expected_width, expected_height) {
                    Err(AnnotationDocumentError::ImageMismatch)
                } else if !canvas_ratio_ok {
                    Err(AnnotationDocumentError::CanvasMismatch)
                } else {
                    Ok(())
                },
            },
    {
        match self.validate() {
            Err(e) => return Err(e),
            Ok(()) => {},
        }
        if expected_width <= 0 || expected_height <= 0 || expected_width != self.source_pixels.width as i64
            || expected_height != self.source_pixels.height as i64 {
            return Err(AnnotationDocumentError::ImageMismatch);
        }
        if !canvas_ratio_ok {
            return Err(AnnotationDocumentError::CanvasMismatch);
        }
        Ok(())
    }
}

/// Whether an image of `width` by `height` pixels is the document's source.
pub open spec fn image_matches(source: AnnotationPixelSize, width: i64, height: i64) -> bool {
    width > 0 && height > 0 && width == source.width && height == source.height
}

/// Checks the length of a document's JSON text: 1 to 4 MiB.
pub fn check_document_size(len: usize) -> (result: Result<(), AnnotationDocumentError>)
    ensures
        result is Ok <==> 0 < len <= MAX_ANNOTATION_DOCUMENT_BYTES,
        result is Err ==> result == Err::<(), AnnotationDocumentError>(AnnotationDocumentError::TooLarge),
{
    if len == 0 || len > MAX_ANNOTATION_DOCUMENT_BYTES {
        Err(AnnotationDocumentError::TooLarge)
    } else {
        Ok(())
    }
}

} // verus!
