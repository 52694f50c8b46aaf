//! User-selected media files imported into the library: which files are
//! accepted, within which limits, how an imported image is normalized, and
//! the title an imported file gets.

use std::io::Cursor;

use image::ImageFormat::{Jpeg, Png, WebP};
use image::{DynamicImage, ImageDecoder, ImageError, ImageReader, Limits};
use vstd::prelude::*;

use crate::asset::CaptureKind;
use crate::text::{eq_ignore_ascii_case, equals_ignore_ascii_case, chars_of, is_control, lemma_trim_within, push_char, spec_is_control, spec_trim, trim};

verus! {

/// `Path::file_stem` of `path`, converted to text; none when the path has no
/// file name. Paths are read with the target platform's path syntax.
pub uninterp spec fn path_file_stem(path: Seq<char>) -> Option<Seq<char>>;

/// `std::path::Path::file_stem` with `OsStr::to_string_lossy`.
#[verifier::external_body]
fn file_stem(path: &str) -> (stem: Option<String>)
    ensures
        match stem {
            Some(s) => path_file_stem(path@) == Some(s@),
            None => path_file_stem(path@) is None,
        },
{
    std::path::Path::new(path).file_stem().map(|stem| stem.to_string_lossy().into_owned())
}

/// `s` without its control characters.
pub open spec fn without_controls(s: Seq<char>) -> Seq<char>
    decreases s.len(),
{
    if s.len() == 0 {
        Seq::empty()
    } else if spec_is_control(s.last()) {
        without_controls(s.drop_last())
    } else {
        without_controls(s.drop_last()).push(s.last())
    }
}

/// Longest title taken from a file name, in characters.
pub const MAX_TITLE_CHARS: usize = 200;

/// The readable title made from a file stem: the stem without control
/// characters, cut to 200 characters and trimmed; none when nothing is left.
pub open spec fn spec_title_from_stem(stem: Seq<char>) -> Option<Seq<char>> {
    let kept = without_controls(stem);
    let cut = if kept.len() > MAX_TITLE_CHARS { kept.take(MAX_TITLE_CHARS as int) } else { kept };
    let title = spec_trim(cut);
    if title.len() == 0 { None } else { Some(title) }
}

/// The readable title of an imported file: the title made from its stem;
/// none when the path has no file name.
pub open spec fn spec_display_title(path: Seq<char>) -> Option<Seq<char>> {
    match path_file_stem(path) {
        None => None,
        Some(stem) => spec_title_from_stem(stem),
    }
}

proof fn lemma_without_controls_prefix(s: Seq<char>, i: int)
    requires
        0 <= i < s.len(),
    ensures
        without_controls(s.take(i + 1)) == if spec_is_control(s[i]) {
            without_controls(s.take(i))
        } else {
            without_controls(s.take(i)).push(s[i])
        },
{
    assert(s.take(i + 1).drop_last() =~= s.take(i));
}

/// The title made from the file stem `stem`.
pub fn title_from_stem(stem: &str) -> (title: Option<String>)
    ensures
        match title {
            Some(t) => spec_title_from_stem(stem@) == Some(t@),
            None => spec_title_from_stem(stem@) is None,
        },
{
    let chars = chars_of(stem);
    let ghost kept_all = without_controls(stem@);
    let mut kept = String::new();
    let mut count: usize = 0;
    let mut i: usize = 0;
    while i < chars.len() && count < MAX_TITLE_CHARS
        invariant
            chars@ == stem@,
            kept_all == without_controls(stem@),
            i <= chars@.len(),
            count <= MAX_TITLE_CHARS,
            kept@ == without_controls(chars@.take(i as int)),
            count == kept@.len(),
        decreases chars@.len() - i,
    {
        proof {
            lemma_without_controls_prefix(chars@, i as int);
        }
        if !is_control(chars[i]) {
            push_char(&mut kept, chars[i]);
            count = count + 1;
        }
        i = i + 1;
    }
    proof {
        lemma_without_controls_take(chars@, i as int, count as int);
    }
    let title = trim(kept.as_str());
    if title.as_str().is_empty() {
        None
    } else {
        Some(title)
    }
}

/// The title shown for a file imported from `path`.
pub fn display_title(path: &str) -> (title: Option<String>)
    ensures
        match title {
            Some(t) => spec_display_title(path@) == Some(t@),
            None => spec_display_title(path@) is None,
        },
{
    match file_stem(path) {
        Some(stem) => title_from_stem(stem.as_str()),
        None => None,
    }
}

proof fn lemma_without_controls_take(s: Seq<char>, i: int, count: int)
    requires
        0 <= i <= s.len(),
        count == without_controls(s.take(i)).len(),
        count <= MAX_TITLE_CHARS,
        i < s.len() ==> count == MAX_TITLE_CHARS,
    ensures
        without_controls(s.take(i)) == if without_controls(s).len() > MAX_TITLE_CHARS {
            without_controls(s).take(MAX_TITLE_CHARS as int)
        } else {
            without_controls(s)
        },
    decreases s.len() - i,
{
    if i == s.len() {
        assert(s.take(i) =~= s);
    } else {
        lemma_without_controls_prefix(s, i);
        lemma_without_controls_extends(s, i);
    }
}

/// Filtering a longer prefix extends the filtered shorter prefix.
proof fn lemma_without_controls_extends(s: Seq<char>, i: int)
    requires
        0 <= i <= s.len(),
    ensures
        without_controls(s).len() >= without_controls(s.take(i)).len(),
        without_controls(s).take(without_controls(s.take(i)).len() as int) == without_controls(s.take(i)),
    decreases s.len() - i,
{
    if i < s.len() {
        lemma_without_controls_extends(s, i + 1);
        lemma_without_controls_prefix(s, i);
        let short = without_controls(s.take(i));
        let long = without_controls(s.take(i + 1));
        assert(long.take(short.len() as int) =~= short);
        assert(without_controls(s).take(short.len() as int) =~= without_controls(s).take(long.len() as int).take(short.len() as int));
    } else {
        assert(s.take(i) =~= s);
        assert(without_controls(s).take(without_controls(s).len() as int) =~= without_controls(s));
    }
}

proof fn lemma_without_controls_readable(s: Seq<char>)
    ensures
        forall|i: int| 0 <= i < without_controls(s).len() ==> !spec_is_control(#[trigger] without_controls(s)[i]),
    decreases s.len(),
{
    if s.len() > 0 {
        lemma_without_controls_readable(s.drop_last());
        let rest = without_controls(s.drop_last());
        if !spec_is_control(s.last()) {
            assert forall|i: int| 0 <= i < rest.push(s.last()).len() implies !spec_is_control(#[trigger] rest.push(s.last())[i]) by {
                if i < rest.len() {
                    assert(rest.push(s.last())[i] == rest[i]);
                }
            }
        }
    }
}

/// A title is never empty, never longer than 200 characters, and holds no
/// control characters.
pub proof fn lemma_display_title_readable(path: Seq<char>)
    ensures
        spec_display_title(path) matches Some(title) ==> 0 < title.len() <= MAX_TITLE_CHARS
            && forall|i: int| 0 <= i < title.len() ==> !spec_is_control(#[trigger] title[i]),
{
    if let Some(stem) = path_file_stem(path) {
        lemma_title_readable(stem);
    }
}

/// A title made from a stem is never empty, never longer than 200
/// characters, and holds no control characters.
pub proof fn lemma_title_readable(stem: Seq<char>)
    ensures
        spec_title_from_stem(stem) matches Some(title) ==> 0 < title.len() <= MAX_TITLE_CHARS
            && forall|i: int| 0 <= i < title.len() ==> !spec_is_control(#[trigger] title[i]),
{
    let kept = without_controls(stem);
    let cut = if kept.len() > MAX_TITLE_CHARS { kept.take(MAX_TITLE_CHARS as int) } else { kept };
    lemma_without_controls_readable(stem);
    lemma_trim_within(cut);
    let title = spec_trim(cut);
    assert forall|i: int| 0 <= i < title.len() implies !spec_is_control(#[trigger] title[i]) by {
        assert(cut.contains(title[i]));
        let j = choose|j: int| 0 <= j < cut.len() && cut[j] == title[i];
        assert(kept[j] == cut[j]);
    }
}


/// `Path::extension` of `path`, when it has one that is valid text. Paths are
/// read with the target platform's path syntax.
pub uninterp spec fn path_extension(path: Seq<char>) -> Option<Seq<char>>;

/// `std::path::Path::extension` with `OsStr::to_str`.
#[verifier::external_body]
pub(crate) fn file_extension(path: &str) -> (extension: Option<String>)
    ensures
        match extension {
            Some(e) => path_extension(path@) == Some(e@),
            None => path_extension(path@) is None,
        },
{
    std::path::Path::new(path).extension().and_then(|e| e.to_str()).map(|e| e.to_string())
}

/// The extension of an imported file: empty when the path has none.
pub fn extension_of(path: &str) -> (extension: String)
    ensures
        extension@ == match path_extension(path@) {
            Some(e) => e,
            None => Seq::<char>::empty(),
        },
{
    match file_extension(path) {
        Some(extension) => extension,
        None => String::new(),
    }
}

/// Largest imported video, in bytes (8 GiB).
pub const MAX_IMPORT_VIDEO_BYTES: u64 = 8589934592;
/// Largest imported image file, in bytes (32 MiB).
pub const MAX_IMPORT_IMAGE_BYTES: u64 = 33554432;
/// Largest side of an imported image, in pixels.
pub const MAX_IMPORT_IMAGE_SIDE: u32 = 8192;
/// Memory the decoder may allocate for an imported image, in bytes (128 MiB).
pub const MAX_IMPORT_IMAGE_ALLOC: u64 = 134217728;

/// What an accepted file is imported as.
#[derive(Debug, Clone, Copy, PartialEq, Eq, Structural)]
pub enum ImportKind {
    Mp4Video,
    MovVideo,
    Image,
}

impl ImportKind {
    /// The extension the library stores the import under: the video keeps
    /// its container, an image becomes a PNG.
    pub fn extension(&self) -> (extension: &'static str)
        ensures
            extension@ == match self {
                ImportKind::Mp4Video => "mp4"@,
                ImportKind::MovVideo => "mov"@,
                ImportKind::Image => "png"@,
            },
    {
        match self {
            ImportKind::Mp4Video => "mp4",
            ImportKind::MovVideo => "mov",
            ImportKind::Image => "png",
        }
    }

    /// The kind of capture the import becomes.
    pub fn capture_kind(&self) -> (kind: CaptureKind)
        ensures
            kind == match self {
                ImportKind::Image => CaptureKind::Image,
                _ => CaptureKind::Video,
            },
    {
        match self {
            ImportKind::Image => CaptureKind::Image,
            _ => CaptureKind::Video,
        }
    }
}

/// Why a file could not be imported.
#[derive(Debug, PartialEq, Eq)]
pub enum ImportError {
    NotAFile,
    VideoTooLarge,
    UnsupportedImage,
    InvalidVideo,
    /// The image decoder's own message.
    Image(String),
}

impl ImportError {
    /// The message shown for this error.
    pub fn to_string(&self) -> (message: String)
        ensures
            message@ == match self {
                ImportError::NotAFile => "Choose a regular media file"@,
                ImportError::VideoTooLarge => "Video exceeds 8 GB"@,
                ImportError::UnsupportedImage => "Unsupported image"@,
                ImportError::InvalidVideo => "Invalid video"@,
                ImportError::Image(m) => m@,
            },
    {
        match self {
            ImportError::NotAFile => String::from_str("Choose a regular media file"),
            ImportError::VideoTooLarge => String::from_str("Video exceeds 8 GB"),
            ImportError::UnsupportedImage => String::from_str("Unsupported image"),
            ImportError::InvalidVideo => String::from_str("Invalid video"),
            ImportError::Image(m) => m.clone(),
        }
    }
}

/// Whether `extension` names a video container, in any case.
pub open spec fn is_video_extension(extension: Seq<char>) -> bool {
    eq_ignore_ascii_case(extension, "mp4"@) || eq_ignore_ascii_case(extension, "mov"@)
}

/// Whether `extension` names a supported image format, in any case.
pub open spec fn is_image_extension(extension: Seq<char>) -> bool {
    ||| eq_ignore_ascii_case(extension, "png"@)
    ||| eq_ignore_ascii_case(extension, "jpg"@)
    ||| eq_ignore_ascii_case(extension, "jpeg"@)
    ||| eq_ignore_ascii_case(extension, "webp"@)
}

/// The verdict on a selected file before it is read: it must be a regular
/// file; an MP4 or MOV may hold up to 8 GiB, a PNG, JPEG or WebP image up to
/// 32 MiB; anything else is an unsupported image.
pub open spec fn spec_classify_import(extension: Seq<char>, byte_len: u64, is_regular_file: bool) -> Result<ImportKind, ImportError> {
    if !is_regular_file {
        Err(ImportError::NotAFile)
    } else if is_video_extension(extension) {
        if byte_len > MAX_IMPORT_VIDEO_BYTES {
            Err(ImportError::VideoTooLarge)
        } else if eq_ignore_ascii_case(extension, "mov"@) {
            Ok(ImportKind::MovVideo)
        } else {
            Ok(ImportKind::Mp4Video)
        }
    } else if is_image_extension(extension) && byte_len <= MAX_IMPORT_IMAGE_BYTES {
        Ok(ImportKind::Image)
    } else {
        Err(ImportError::UnsupportedImage)
    }
}

/// Classifies a selected file by its extension, size and type.
pub fn classify_import(extension: &str, byte_len: u64, is_regular_file: bool) -> (kind: Result<ImportKind, ImportError>)
    ensures
        kind == spec_classify_import(extension@, byte_len, is_regular_file),
{
    proof {
        reveal_strlit("mp4");
        reveal_strlit("mov");
        reveal_strlit("png");
        reveal_strlit("jpg");
        reveal_strlit("jpeg");
        reveal_strlit("webp");
    }
    if !is_regular_file {
        return Err(ImportError::NotAFile);
    }
    let mov = equals_ignore_ascii_case(extension, "mov");
    if equals_ignore_ascii_case(extension, "mp4") || mov {
        if byte_len > MAX_IMPORT_VIDEO_BYTES {
            return Err(ImportError::VideoTooLarge);
        }
        return if mov { Ok(ImportKind::MovVideo) } else { Ok(ImportKind::Mp4Video) };
    }
    let image = equals_ignore_ascii_case(extension, "png") || equals_ignore_ascii_case(extension, "jpg")
        || equals_ignore_ascii_case(extension, "jpeg") || equals_ignore_ascii_case(extension, "webp");
    if image && byte_len <= MAX_IMPORT_IMAGE_BYTES {
        Ok(ImportKind::Image)
    } else {
        Err(ImportError::UnsupportedImage)
    }
}

/// The copy of an imported video must not exceed 8 GiB either.
pub fn check_video_copy(copied: u64) -> (result: Result<(), ImportError>)
    ensures
        copied <= MAX_IMPORT_VIDEO_BYTES ==> result == Ok::<(), ImportError>(()),
        copied > MAX_IMPORT_VIDEO_BYTES ==> result == Err::<(), ImportError>(ImportError::VideoTooLarge),
{
    if copied > MAX_IMPORT_VIDEO_BYTES {
        Err(ImportError::VideoTooLarge)
    } else {
        Ok(())
    }
}

/// A probed video must have a positive size; `duration_ok` is the verdict on
/// its duration (present, finite and positive).
pub fn check_probed_video(width: i64, height: i64, duration_ok: bool) -> (result: Result<(), ImportError>)
    ensures
        (width > 0 && height > 0 && duration_ok) ==> result == Ok::<(), ImportError>(()),
        !(width > 0 && height > 0 && duration_ok) ==> result == Err::<(), ImportError>(ImportError::InvalidVideo),
{
    if width <= 0 || height <= 0 || !duration_ok {
        Err(ImportError::InvalidVideo)
    } else {
        Ok(())
    }
}

#[verifier::external_type_specification]
#[verifier::external_body]
pub struct ExImageError(image::ImageError);

/// The format an image file's extension names, in any case; the decoder
/// falls back on it when the content does not show one.
#[derive(Debug, Clone, Copy, PartialEq, Eq, Structural)]
pub enum ImportImageFormat {
    Png,
    Jpeg,
    WebP,
}

/// The image format of `extension`: PNG, JPEG (`jpg` or `jpeg`) or WebP, in
/// any case.
pub open spec fn spec_import_image_format(extension: Seq<char>) -> Option<ImportImageFormat> {
    if eq_ignore_ascii_case(extension, "png"@) {
        Some(ImportImageFormat::Png)
    } else if eq_ignore_ascii_case(extension, "jpg"@) || eq_ignore_ascii_case(extension, "jpeg"@) {
        Some(ImportImageFormat::Jpeg)
    } else if eq_ignore_ascii_case(extension, "webp"@) {
        Some(ImportImageFormat::WebP)
    } else {
        None
    }
}

/// The image format an imported file's extension names.
pub fn import_image_format(extension: &str) -> (format: Option<ImportImageFormat>)
    ensures
        format == spec_import_image_format(extension@),
{
    if equals_ignore_ascii_case(extension, "png") {
        Some(ImportImageFormat::Png)
    } else if equals_ignore_ascii_case(extension, "jpg") || equals_ignore_ascii_case(extension, "jpeg") {
        Some(ImportImageFormat::Jpeg)
    } else if equals_ignore_ascii_case(extension, "webp") {
        Some(ImportImageFormat::WebP)
    } else {
        None
    }
}

/// Every file accepted as an image has an image format.
pub proof fn lemma_accepted_images_have_a_format(extension: Seq<char>, byte_len: u64, is_regular_file: bool)
    ensures
        spec_classify_import(extension, byte_len, is_regular_file) == Ok::<ImportKind, ImportError>(ImportKind::Image)
            ==> spec_import_image_format(extension) is Some,
{
}

/// What `image` makes of `bytes`: decoded in the format its content shows,
/// or else as `format`, with each side limited to `max_side` pixels and
/// allocations to `max_alloc` bytes, turned upright by its orientation, and
/// encoded as PNG. The PNG with its width and height; none when `image` fails.
pub uninterp spec fn import_image_png(bytes: Seq<u8>, format: ImportImageFormat, max_side: u32, max_alloc: u64) -> Option<(Seq<u8>, u32, u32)>;

/// `image::ImageReader::with_format` and `with_guessed_format`, then
/// `into_decoder` with the limits set, `ImageDecoder::orientation`,
/// `DynamicImage::from_decoder`, `apply_orientation` and `write_to` as PNG.
/// The decoder refuses a side longer than `max_side`, and orientation only
/// swaps the sides.
#[verifier::external_body]
fn normalize_image(bytes: &[u8], format: ImportImageFormat, max_side: u32, max_alloc: u64) -> (normalized: Result<(Vec<u8>, u32, u32), ImageError>)
    ensures
        match normalized {
            Ok((png, width, height)) => import_image_png(bytes@, format, max_side, max_alloc) == Some((png@, width, height))
                && width <= max_side && height <= max_side,
            Err(_) => import_image_png(bytes@, format, max_side, max_alloc) is None,
        },
{
    let format = match format { ImportImageFormat::Png => Png, ImportImageFormat::Jpeg => Jpeg, ImportImageFormat::WebP => WebP };
    let mut reader = ImageReader::with_format(Cursor::new(bytes), format).with_guessed_format().map_err(ImageError::IoError)?;
    let mut limits = Limits::default();
    (limits.max_image_width, limits.max_image_height, limits.max_alloc) = (Some(max_side), Some(max_side), Some(max_alloc));
    reader.limits(limits);
    let mut decoder = reader.into_decoder()?;
    let orientation = decoder.orientation()?;
    let mut image = DynamicImage::from_decoder(decoder)?;
    image.apply_orientation(orientation);
    let mut png = Cursor::new(Vec::new());
    image.write_to(&mut png, Png)?;
    Ok((png.into_inner(), image.width(), image.height()))
}

/// `Display` of an `image::ImageError`.
#[verifier::external_body]
fn image_error_message(error: &ImageError) -> String {
    error.to_string()
}

/// The normalized PNG of an imported image with its size: decoded (as
/// `format` when its content does not show a format) within 8192 pixels a
/// side and 128 MiB of memory, upright, as PNG. The error carries the
/// decoder's message.
pub fn prepare_image(bytes: &[u8], format: ImportImageFormat) -> (prepared: Result<(Vec<u8>, u32, u32), ImportError>)
    ensures
        match import_image_png(bytes@, format, MAX_IMPORT_IMAGE_SIDE, MAX_IMPORT_IMAGE_ALLOC) {
            Some((png, width, height)) => prepared matches Ok((p, w, h)) && p@ == png && w == width && h == height,
            None => prepared matches Err(ImportError::Image(_)),
        },
        prepared matches Ok((_, w, h)) ==> w <= MAX_IMPORT_IMAGE_SIDE && h <= MAX_IMPORT_IMAGE_SIDE,
{
    match normalize_image(bytes, format, MAX_IMPORT_IMAGE_SIDE, MAX_IMPORT_IMAGE_ALLOC) {
        Ok(normalized) => Ok(normalized),
        Err(error) => Err(ImportError::Image(image_error_message(&error))),
    }
}

/// Every accepted import is within its limits: a video of at most 8 GiB, an
/// image file of at most 32 MiB, and only from a regular file with a
/// supported extension.
pub proof fn lemma_import_limits(extension: Seq<char>, byte_len: u64, is_regular_file: bool)
    ensures
        spec_classify_import(extension, byte_len, is_regular_file) matches Ok(kind) ==> is_regular_file && match kind {
            ImportKind::Image => is_image_extension(extension) && byte_len <= MAX_IMPORT_IMAGE_BYTES,
            _ => is_video_extension(extension) && byte_len <= MAX_IMPORT_VIDEO_BYTES,
        },
{
}

} // verus!
