use kiri::asset::CaptureKind;
use kiri::media_import::{
    check_probed_video, check_video_copy, classify_import, display_title, import_image_format,
    prepare_image, ImportImageFormat,
    title_from_stem, ImportError, ImportKind, MAX_IMPORT_IMAGE_BYTES, MAX_IMPORT_VIDEO_BYTES,
    MAX_TITLE_CHARS,
};
use kiri::ocr_retry::run_with_one_retry;
use kiri::recording_recovery::{
    asset_matches_proof, import_extension, is_sha256, recovery_matches_proof,
    ImportedAssetProof, MANIFEST_SCHEMA_VERSION, MAX_MANIFEST_BYTES,
};
use kiri::video_project::{
    validate_id, validate_layer, VideoProjectError, MAX_ITEM_ID_LEN, MAX_LAYER,
};

#[test]
fn imported_names_are_readable_bounded_and_do_not_include_paths() {
    assert_eq!(display_title("/tmp/海边散步.mp4").as_deref(), Some("海边散步"));
    assert_eq!(display_title("/tmp/ hello\n.mp4").as_deref(), Some("hello"));
    assert_eq!(display_title("/tmp/   .png"), None);
    assert_eq!(
        display_title(&format!("{}.mp4", "界".repeat(300)))
            .unwrap()
            .chars()
            .count(),
        200
    );
}

#[test]
fn titles_drop_controls_before_cutting_and_trim_after() {
    assert_eq!(display_title("/a/b/\u{7}clip\u{1b}.mov").as_deref(), Some("clip"));
    assert_eq!(display_title("/"), None);
    assert_eq!(display_title("noext").as_deref(), Some("noext"));
    let long = format!("{} x.mp4", "y".repeat(199));
    // The cut keeps 199 letters and the space, which trimming removes.
    assert_eq!(display_title(&long).unwrap().len(), 199);
    assert_eq!(MAX_TITLE_CHARS, 200);
}

#[test]
fn local_retry_runs_at_most_twice_and_preserves_the_first_error() {
    let mut attempts = 0;
    let (result, first_error) = run_with_one_retry(|| {
        attempts += 1;
        if attempts == 1 {
            Err("cold start")
        } else {
            Ok("recognized")
        }
    });
    assert_eq!(attempts, 2);
    assert_eq!(result, Ok("recognized"));
    assert_eq!(first_error, Some("cold start"));

    let mut successful_attempts = 0;
    let (result, first_error) = run_with_one_retry(|| {
        successful_attempts += 1;
        Ok::<_, &str>("recognized")
    });
    assert_eq!(successful_attempts, 1);
    assert_eq!(result, Ok("recognized"));
    assert_eq!(first_error, None);
}

#[test]
fn local_retry_reports_both_failures() {
    let mut attempts = 0;
    let (result, first_error) = run_with_one_retry(|| {
        attempts += 1;
        Err::<&str, _>(if attempts == 1 { "cold start" } else { "still failing" })
    });
    assert_eq!(attempts, 2);
    assert_eq!(result, Err("still failing"));
    assert_eq!(first_error, Some("cold start"));
}

#[test]
fn recovery_digests_are_lowercase_sha256() {
    let digest = "e3b0c44298fc1c149afbf4c8996fb92427ae41e4649b934ca495991b7852b855";
    assert!(is_sha256(digest));
    assert!(!is_sha256(&digest.to_uppercase()));
    assert!(!is_sha256(&digest[..63]));
    assert!(!is_sha256("not a digest"));
    assert_eq!(MANIFEST_SCHEMA_VERSION, 1);
    assert_eq!(MAX_MANIFEST_BYTES, 64 * 1024);
}

#[test]
fn import_extensions_follow_the_asset_kind() {
    assert_eq!(import_extension(CaptureKind::Image), "png");
    assert_eq!(import_extension(CaptureKind::Video), "mp4");
    assert_eq!(import_extension(CaptureKind::Gif), "gif");
}

fn imported_record(kind: CaptureKind) -> ImportedAssetProof {
    ImportedAssetProof {
        kind,
        filename: "2026-08-29-120000-abc.mp4".into(),
        byte_len: 21,
        sha256: "e3b0c44298fc1c149afbf4c8996fb92427ae41e4649b934ca495991b7852b855".into(),
    }
}

#[test]
fn import_proof_rejects_a_different_library_file() {
    let video = imported_record(CaptureKind::Video);
    let digest = video.sha256.clone();
    assert!(asset_matches_proof(Some(&video), CaptureKind::Video, 21, &digest));
    assert!(!asset_matches_proof(Some(&video), CaptureKind::Video, 22, &digest));
    assert!(!asset_matches_proof(Some(&video), CaptureKind::Gif, 21, &digest));
    assert!(!asset_matches_proof(
        Some(&video),
        CaptureKind::Video,
        21,
        "0000000000000000000000000000000000000000000000000000000000000000"
    ));
    assert!(!asset_matches_proof(None, CaptureKind::Video, 21, &digest));
}

#[test]
fn only_a_video_import_proves_the_recovery_copy() {
    let video = imported_record(CaptureKind::Video);
    let gif = imported_record(CaptureKind::Gif);
    let digest = video.sha256.clone();
    assert!(recovery_matches_proof(Some(&video), 21, &digest));
    assert!(!recovery_matches_proof(Some(&gif), 21, &digest));
    assert!(!recovery_matches_proof(Some(&video), 20, &digest));
    assert!(!recovery_matches_proof(None, 21, &digest));
}

#[test]
fn video_project_ids_are_bounded_unique_and_printable() {
    let mut ids = Vec::new();
    assert!(validate_id("sticker-1", &mut ids).is_ok());
    assert_eq!(ids, vec!["sticker-1".to_string()]);
    assert!(matches!(validate_id("sticker-1", &mut ids), Err(VideoProjectError::Invalid)));
    assert!(matches!(validate_id("", &mut ids), Err(VideoProjectError::Invalid)));
    assert!(matches!(validate_id("bad\nid", &mut ids), Err(VideoProjectError::Invalid)));
    assert!(matches!(
        validate_id(&"x".repeat(MAX_ITEM_ID_LEN + 1), &mut ids),
        Err(VideoProjectError::Invalid)
    ));
    assert!(validate_id(&"x".repeat(MAX_ITEM_ID_LEN), &mut ids).is_ok());
    assert_eq!(ids.len(), 2);
}

#[test]
fn video_project_layers_stay_in_range() {
    assert!(validate_layer(None).is_ok());
    assert!(validate_layer(Some(0)).is_ok());
    assert!(validate_layer(Some(MAX_LAYER)).is_ok());
    assert!(matches!(validate_layer(Some(-1)), Err(VideoProjectError::Invalid)));
    assert!(matches!(validate_layer(Some(MAX_LAYER + 1)), Err(VideoProjectError::Invalid)));
}

#[test]
fn titles_from_stems_drop_controls_cut_and_trim() {
    assert_eq!(title_from_stem("\u{7}  beach\twalk  ").as_deref(), Some("beachwalk"));
    assert_eq!(title_from_stem("\n\r"), None);
    assert_eq!(title_from_stem(""), None);
    let long = format!("{}{}", " ".repeat(10), "a".repeat(300));
    assert_eq!(title_from_stem(&long).unwrap().chars().count(), MAX_TITLE_CHARS - 10);
}

fn encoded(image: image::DynamicImage, format: image::ImageFormat) -> Vec<u8> {
    let mut bytes = std::io::Cursor::new(Vec::new());
    image.write_to(&mut bytes, format).unwrap();
    bytes.into_inner()
}

#[test]
fn images_are_copied_and_normalized_without_changing_source() {
    let jpeg = encoded(
        image::DynamicImage::ImageRgb8(image::RgbImage::from_pixel(31, 19, image::Rgb([210, 30, 25]))),
        image::ImageFormat::Jpeg,
    );
    let before = jpeg.clone();
    assert_eq!(classify_import("jpg", jpeg.len() as u64, true), Ok(ImportKind::Image));
    let (png, width, height) = prepare_image(&jpeg, ImportImageFormat::Jpeg).unwrap();
    assert_eq!((width, height), (31, 19));
    assert_eq!(ImportKind::Image.extension(), "png");
    let decoded = image::load_from_memory_with_format(&png, image::ImageFormat::Png).unwrap();
    assert_eq!((decoded.width(), decoded.height()), (31, 19));
    assert_eq!(before, jpeg);
}

#[test]
fn directories_and_disguised_files_are_rejected() {
    assert_eq!(classify_import("", 0, false), Err(ImportError::NotAFile));
    assert_eq!(classify_import("png", 12, false), Err(ImportError::NotAFile));
    assert!(matches!(prepare_image(b"not an image", ImportImageFormat::Png), Err(ImportError::Image(_))));
}

#[test]
fn imports_are_classified_by_extension_in_any_case() {
    assert_eq!(classify_import("MP4", 10, true), Ok(ImportKind::Mp4Video));
    assert_eq!(classify_import("Mov", 10, true), Ok(ImportKind::MovVideo));
    assert_eq!(ImportKind::MovVideo.extension(), "mov");
    assert_eq!(ImportKind::MovVideo.capture_kind(), CaptureKind::Video);
    for extension in ["png", "JPG", "jpeg", "WebP"] {
        assert_eq!(classify_import(extension, 10, true), Ok(ImportKind::Image));
    }
    assert_eq!(classify_import("gif", 10, true), Err(ImportError::UnsupportedImage));
    assert_eq!(classify_import("", 10, true), Err(ImportError::UnsupportedImage));
    assert_eq!(classify_import("mp4.", 10, true), Err(ImportError::UnsupportedImage));
}

#[test]
fn imports_keep_the_size_limits() {
    assert_eq!(classify_import("mp4", MAX_IMPORT_VIDEO_BYTES, true), Ok(ImportKind::Mp4Video));
    assert_eq!(classify_import("mp4", MAX_IMPORT_VIDEO_BYTES + 1, true), Err(ImportError::VideoTooLarge));
    assert_eq!(classify_import("png", MAX_IMPORT_IMAGE_BYTES, true), Ok(ImportKind::Image));
    assert_eq!(classify_import("png", MAX_IMPORT_IMAGE_BYTES + 1, true), Err(ImportError::UnsupportedImage));
    assert_eq!(check_video_copy(MAX_IMPORT_VIDEO_BYTES), Ok(()));
    assert_eq!(check_video_copy(MAX_IMPORT_VIDEO_BYTES + 1), Err(ImportError::VideoTooLarge));
    assert_eq!(ImportError::VideoTooLarge.to_string(), "Video exceeds 8 GB");
    assert_eq!(check_probed_video(1920, 1080, true), Ok(()));
    assert_eq!(check_probed_video(0, 1080, true), Err(ImportError::InvalidVideo));
    assert_eq!(check_probed_video(1920, 1080, false), Err(ImportError::InvalidVideo));
}

#[test]
fn imported_images_are_bounded_per_edge() {
    let widest = encoded(image::DynamicImage::new_luma8(8192, 1), image::ImageFormat::Png);
    assert_eq!(prepare_image(&widest, ImportImageFormat::Png).map(|(_, w, h)| (w, h)), Ok((8192, 1)));
    let too_wide = encoded(image::DynamicImage::new_luma8(8193, 1), image::ImageFormat::Png);
    assert!(matches!(prepare_image(&too_wide, ImportImageFormat::Png), Err(ImportError::Image(_))));
    let webp = encoded(image::DynamicImage::new_rgba8(5, 4), image::ImageFormat::WebP);
    assert_eq!(prepare_image(&webp, ImportImageFormat::WebP).map(|(_, w, h)| (w, h)), Ok((5, 4)));
}

#[test]
fn image_formats_follow_the_extension_when_content_does_not_show_one() {
    assert_eq!(import_image_format("PNG"), Some(ImportImageFormat::Png));
    assert_eq!(import_image_format("jpg"), Some(ImportImageFormat::Jpeg));
    assert_eq!(import_image_format("Jpeg"), Some(ImportImageFormat::Jpeg));
    assert_eq!(import_image_format("webp"), Some(ImportImageFormat::WebP));
    assert_eq!(import_image_format("gif"), None);
    // A PNG named as a JPEG is still read as the PNG its content shows.
    let png = encoded(image::DynamicImage::new_rgba8(3, 2), image::ImageFormat::Png);
    assert_eq!(prepare_image(&png, ImportImageFormat::Jpeg).map(|(_, w, h)| (w, h)), Ok((3, 2)));
}
