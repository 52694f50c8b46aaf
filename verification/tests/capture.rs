use std::cell::Cell;
use std::io::Cursor;
use std::sync::mpsc;

use kiri::capture::{
    permission_failure, validate_capture_png, RecoveryAction, CAPTURE_DIMENSIONS_INVALID,
    CAPTURE_IMAGE_INVALID, CAPTURE_IMAGE_TOO_LARGE,
    capture_failure_requires_global_error, capture_png_dimensions, windows_capture_monitor_index,
    CaptureHealth, DisplayIndexTooLarge, PermissionState, ScreenCapturePermissionGate,
    VIDEO_FRAME_QUEUE_CAPACITY, unique_display_identity_index, DisplayIdentity,
};
use kiri::frame::{crop_bgra_frame, crop_rgba_to_bgra, PixelRegion};
use kiri::gif::scale_long_edge;
use kiri::frozen::{
    frozen_wait_timeout, receive_frozen_capture, CaptureWaitError, FrozenCaptureMessage, FrozenWaitStage,
};

#[test]
fn authorized_preflight_never_requests_access() {
    let mut gate = ScreenCapturePermissionGate::new();
    let request_count = Cell::new(0);

    let state = gate.check(
        || true,
        || {
            request_count.set(request_count.get() + 1);
            false
        },
    );

    assert_eq!(state, PermissionState::Authorized);
    assert_eq!(request_count.get(), 0);
}

#[test]
fn denied_request_is_cached_for_the_process() {
    let mut gate = ScreenCapturePermissionGate::new();
    let request_count = Cell::new(0);

    for _ in 0..2 {
        let state = gate.check(
            || false,
            || {
                request_count.set(request_count.get() + 1);
                false
            },
        );
        assert_eq!(state, PermissionState::SettingsRequired);
    }

    assert_eq!(request_count.get(), 1);
}

#[test]
fn granted_request_is_cached_until_preflight_authorizes() {
    let mut gate = ScreenCapturePermissionGate::new();
    let request_count = Cell::new(0);

    let first = gate.check(
        || false,
        || {
            request_count.set(request_count.get() + 1);
            true
        },
    );
    let cached = gate.check(
        || false,
        || {
            request_count.set(request_count.get() + 1);
            false
        },
    );
    let authorized = gate.check(|| true, || false);

    assert_eq!(first, PermissionState::RestartRequired);
    assert_eq!(cached, PermissionState::RestartRequired);
    assert_eq!(authorized, PermissionState::Authorized);
    assert_eq!(request_count.get(), 1);
}

#[test]
fn authorized_preflight_clears_a_cached_request() {
    let mut gate = ScreenCapturePermissionGate::new();
    gate.check(|| false, || false);
    assert_eq!(gate.cached, Some(PermissionState::SettingsRequired));
    assert_eq!(gate.check(|| true, || false), PermissionState::Authorized);
    assert_eq!(gate.cached, None);
    let requests = Cell::new(0);
    let state = gate.check(
        || false,
        || {
            requests.set(requests.get() + 1);
            true
        },
    );
    assert_eq!(state, PermissionState::RestartRequired);
    assert_eq!(requests.get(), 1);
}

#[test]
fn native_capture_failure_survives_a_later_stop_request() {
    let mut health = CaptureHealth::default();
    assert!(health.report_unexpected_stop("display disappeared".into()));
    health.begin_expected_stop();
    assert_eq!(
        health.unexpected_failure().as_deref(),
        Some("display disappeared")
    );
}

#[test]
fn native_close_during_an_expected_stop_is_not_a_failure() {
    let mut health = CaptureHealth::default();
    health.begin_expected_stop();
    assert!(!health.report_unexpected_stop("normal close callback".into()));
    assert!(health.unexpected_failure().is_none());
}

#[test]
fn only_the_first_unexpected_stop_is_recorded() {
    let mut health = CaptureHealth::default();
    assert!(health.unexpected_failure().is_none());
    assert!(health.report_unexpected_stop("first".into()));
    assert!(!health.report_unexpected_stop("second".into()));
    assert_eq!(health.unexpected_failure().as_deref(), Some("first"));
}

#[test]
fn windows_capture_monitor_indices_are_one_based() {
    assert_eq!(windows_capture_monitor_index(0).unwrap(), 1);
    assert_eq!(windows_capture_monitor_index(1).unwrap(), 2);
}

#[test]
fn windows_capture_monitor_index_rejects_overflow() {
    assert!(windows_capture_monitor_index(usize::MAX).is_err());
}

#[test]
fn windows_capture_monitor_index_edges_of_u32() {
    let last = (u32::MAX - 1) as usize;
    assert_eq!(windows_capture_monitor_index(last), Ok(u32::MAX));
    assert_eq!(
        windows_capture_monitor_index(u32::MAX as usize),
        Err(DisplayIndexTooLarge)
    );
}

#[test]
fn capture_double_failure_requires_a_global_error_after_the_overlay_closes() {
    assert!(capture_failure_requires_global_error(false));
    assert!(!capture_failure_requires_global_error(true));
}

#[test]
fn raw_video_queue_capacity_is_two_frames() {
    assert_eq!(VIDEO_FRAME_QUEUE_CAPACITY, 2);
}

fn png_header(width: u32, height: u32) -> Vec<u8> {
    let mut png = vec![0x89, b'P', b'N', b'G', b'\r', b'\n', 0x1a, b'\n'];
    png.extend_from_slice(&13u32.to_be_bytes());
    png.extend_from_slice(b"IHDR");
    png.extend_from_slice(&width.to_be_bytes());
    png.extend_from_slice(&height.to_be_bytes());
    png.extend_from_slice(&[8, 6, 0, 0, 0]);
    png.extend_from_slice(&[0, 0, 0, 0]);
    png
}

#[test]
fn png_dimensions_are_read_from_the_header() {
    assert_eq!(capture_png_dimensions(&png_header(16, 20)), Some((16, 20)));
    assert_eq!(capture_png_dimensions(&png_header(70000, 3)), Some((70000, 3)));
}

#[test]
fn png_dimensions_reject_other_bytes() {
    assert_eq!(capture_png_dimensions(b"not a png"), None);
    assert_eq!(capture_png_dimensions(&png_header(16, 20)[..20]), None);
    let mut wrong_chunk = png_header(16, 20);
    wrong_chunk[12] = b'X';
    assert_eq!(capture_png_dimensions(&wrong_chunk), None);
    assert_eq!(capture_png_dimensions(&png_header(0, 20)), None);
    assert_eq!(capture_png_dimensions(&png_header(16, 0)), None);
}

#[test]
fn crop_honors_row_padding_and_swaps_rgba_to_bgra() {
    let rgba = [
        1, 2, 3, 4, 5, 6, 7, 8, 99, 99, 99, 99, // row 0 + padding
        9, 10, 11, 12, 13, 14, 15, 16, 88, 88, 88, 88, // row 1 + padding
    ];
    let region = PixelRegion {
        x: 0,
        y: 0,
        width: 2,
        height: 2,
    };

    let cropped = crop_rgba_to_bgra(&rgba, 2, 2, 12, region);
    assert_eq!(cropped.len(), 2 * 2 * 4);
    assert_eq!(
        cropped,
        [3, 2, 1, 4, 7, 6, 5, 8, 11, 10, 9, 12, 15, 14, 13, 16]
    );
}

#[test]
fn crop_produces_exact_frame_and_pads_out_of_bounds_pixels() {
    let rgba = [
        1, 2, 3, 255, 4, 5, 6, 255, // row 0
        7, 8, 9, 255, 10, 11, 12, 255, // row 1
    ];
    let region = PixelRegion {
        x: 1,
        y: 1,
        width: 2,
        height: 2,
    };

    let cropped = crop_rgba_to_bgra(&rgba, 2, 2, 8, region);
    assert_eq!(cropped.len(), 2 * 2 * 4);
    assert_eq!(&cropped[0..4], &[12, 11, 10, 255]);
    assert!(cropped[4..].iter().all(|byte| *byte == 0));
}

#[test]
fn crop_of_a_truncated_buffer_keeps_the_frame_size() {
    let rgba = [1, 2, 3, 4, 5, 6, 7, 8, 9, 10];
    let region = PixelRegion {
        x: 0,
        y: 0,
        width: 2,
        height: 2,
    };
    let cropped = crop_rgba_to_bgra(&rgba, 2, 2, 8, region);
    assert_eq!(cropped, [3, 2, 1, 4, 7, 6, 5, 8, 0, 0, 0, 0, 0, 0, 0, 0]);
}

#[test]
fn crop_of_an_empty_region_is_empty() {
    let rgba = [1, 2, 3, 4];
    let region = PixelRegion {
        x: 0,
        y: 0,
        width: 0,
        height: 5,
    };
    assert!(crop_rgba_to_bgra(&rgba, 1, 1, 4, region).is_empty());
}

#[test]
fn frozen_capture_wait_propagates_success() {
    let (sender, receiver) = mpsc::channel::<FrozenCaptureMessage<u8>>();
    sender.send(FrozenCaptureMessage::NativeFrameReady).unwrap();
    sender
        .send(FrozenCaptureMessage::Finished(Ok(42_u8)))
        .unwrap();
    assert_eq!(
        receive_frozen_capture(
            receiver,
            10,
            10,
        )
        .unwrap(),
        42
    );
}

#[test]
fn frozen_capture_wait_times_out_before_first_frame() {
    let (_sender, receiver) = mpsc::channel::<FrozenCaptureMessage<u8>>();
    let error = receive_frozen_capture(
        receiver,
        1,
        10,
    )
    .unwrap_err();
    assert!(error.to_string().contains("did not return a frame"));
}

#[test]
fn frozen_capture_wait_propagates_errors_before_and_after_first_frame() {
    let (sender, receiver) = mpsc::channel::<FrozenCaptureMessage<u8>>();
    sender
        .send(FrozenCaptureMessage::Finished(Err(anyhow::Error::msg(
            "native failed",
        ))))
        .unwrap();
    assert_eq!(
        receive_frozen_capture(
            receiver,
            10,
            10,
        )
        .unwrap_err()
        .to_string(),
        "native failed"
    );

    let (sender, receiver) = mpsc::channel::<FrozenCaptureMessage<u8>>();
    sender.send(FrozenCaptureMessage::NativeFrameReady).unwrap();
    sender
        .send(FrozenCaptureMessage::Finished(Err(anyhow::Error::msg(
            "post-processing failed",
        ))))
        .unwrap();
    assert_eq!(
        receive_frozen_capture(
            receiver,
            10,
            10,
        )
        .unwrap_err()
        .to_string(),
        "post-processing failed"
    );
}

#[test]
fn frozen_capture_wait_reports_a_disconnected_worker() {
    let (sender, receiver) = mpsc::channel::<FrozenCaptureMessage<u8>>();
    drop(sender);
    let error = receive_frozen_capture(
        receiver,
        10,
        10,
    )
    .unwrap_err();
    assert!(error.to_string().contains("stopped unexpectedly"));
}

#[test]
fn frozen_capture_wait_rejects_a_repeated_first_frame() {
    let (sender, receiver) = mpsc::channel::<FrozenCaptureMessage<u8>>();
    sender.send(FrozenCaptureMessage::NativeFrameReady).unwrap();
    sender.send(FrozenCaptureMessage::NativeFrameReady).unwrap();
    let error = receive_frozen_capture(
        receiver,
        10,
        10,
    )
    .unwrap_err();
    assert!(matches!(error, CaptureWaitError::RepeatedFirstFrame));
}

#[test]
fn frozen_capture_timeout_message_names_whole_seconds() {
    assert_eq!(
        CaptureWaitError::NoFirstFrame(12).to_string(),
        "Windows screen capture did not return a frame within 12 seconds. Restart Kiri if capture remains unavailable."
    );
    let (_sender, receiver) = mpsc::channel::<FrozenCaptureMessage<u8>>();
    let error = receive_frozen_capture(
        receiver,
        2500,
        10,
    );
    assert!(matches!(error, Err(CaptureWaitError::NoFirstFrame(2))));
}

#[test]
fn raw_video_frame_queue_has_a_hard_capacity() {
    let (senders, _receivers) = kiri::recording::recording_channels(
        kiri::policy::RecordingOptions::default(),
        || mpsc::sync_channel::<Vec<u8>>(8),
    );
    for _ in 0..VIDEO_FRAME_QUEUE_CAPACITY {
        senders.video.try_send(vec![0]).unwrap();
    }
    assert!(matches!(
        senders.video.try_send(vec![1]),
        Err(mpsc::TrySendError::Full(_))
    ));
}

#[test]
fn audio_channels_exist_only_for_captured_sources() {
    let mut options = kiri::policy::RecordingOptions::default();
    let (senders, receivers) =
        kiri::recording::recording_channels(options, || mpsc::sync_channel::<Vec<u8>>(8));
    assert!(senders.system_audio.is_none() && receivers.system_audio.is_none());
    assert!(senders.microphone.is_none() && receivers.microphone.is_none());

    options.captures_microphone = true;
    let (senders, receivers) =
        kiri::recording::recording_channels(options, || mpsc::sync_channel::<Vec<u8>>(8));
    assert!(senders.system_audio.is_none());
    let microphone = senders.microphone.unwrap();
    microphone.send(vec![7]).unwrap();
    assert_eq!(receivers.microphone.unwrap().recv().unwrap(), vec![7]);
}

#[test]
fn missing_permission_explains_how_to_recover() {
    assert_eq!(permission_failure(PermissionState::Authorized), None);
    assert_eq!(
        permission_failure(PermissionState::RestartRequired),
        Some((
            "Screen Recording access was granted. Quit and reopen Kiri once to finish enabling capture.",
            RecoveryAction::QuitKiri
        ))
    );
    assert_eq!(
        permission_failure(PermissionState::SettingsRequired).map(|failure| failure.1),
        Some(RecoveryAction::OpenSettings)
    );
}

fn encoded_png(width: u32, height: u32) -> Vec<u8> {
    let image = image::DynamicImage::ImageRgba8(image::RgbaImage::new(width, height));
    let mut png = Cursor::new(Vec::new());
    image.write_to(&mut png, image::ImageFormat::Png).unwrap();
    png.into_inner()
}

#[test]
fn capture_confirmation_validates_png_before_consuming_the_session() {
    let png = encoded_png(8, 6);

    assert_eq!(validate_capture_png(&png, 8, 6).unwrap(), (8, 6));
    assert!(validate_capture_png(&png, 7, 6).is_err());
    assert!(validate_capture_png(&png[..png.len() - 1], 8, 6).is_err());
    assert!(validate_capture_png(b"not a png", 8, 6).is_err());

    let mut oversized_header = png.clone();
    oversized_header[16..20].copy_from_slice(&u32::MAX.to_be_bytes());
    assert!(validate_capture_png(&oversized_header, 8, 6).is_err());
}

#[test]
fn capture_validation_names_each_failure() {
    let png = encoded_png(8, 6);
    assert_eq!(validate_capture_png(&png, 20, 20), Ok((8, 6)));
    assert_eq!(validate_capture_png(&png, 7, 6), Err(CAPTURE_DIMENSIONS_INVALID.to_string()));
    assert_eq!(validate_capture_png(&png, 0, 6), Err(CAPTURE_IMAGE_INVALID.to_string()));
    assert_eq!(
        validate_capture_png(&png[..png.len() - 1], 8, 6),
        Err(CAPTURE_IMAGE_INVALID.to_string())
    );

    // A header that claims a smaller image than the pixels decode to.
    let mut shrunk_header = png.clone();
    shrunk_header[16..20].copy_from_slice(&4u32.to_be_bytes());
    assert!(validate_capture_png(&shrunk_header, 8, 6).is_err());

    // A one-pixel header with a megabyte of padding before the end chunk.
    let tiny = encoded_png(1, 1);
    let mut padded = tiny[..tiny.len() - 12].to_vec();
    padded.extend(std::iter::repeat(0u8).take(1024 * 1024 + 8));
    padded.extend_from_slice(&tiny[tiny.len() - 12..]);
    assert_eq!(validate_capture_png(&padded, 1, 1), Err(CAPTURE_IMAGE_TOO_LARGE.to_string()));
}

#[test]
fn bgra_crop_copies_whole_rows_of_the_block() {

    // 3 x 2 frame, 4 bytes per pixel, rows padded to 16 bytes.
    let mut source = Vec::new();
    for row in 0..2u8 {
        for col in 0..3u8 {
            source.extend_from_slice(&[row * 10 + col; 4]);
        }
        source.extend_from_slice(&[99; 4]);
    }
    let block = crop_bgra_frame(&source, 16, 3, 2, 1, 0, 2, 2).unwrap();
    assert_eq!(
        block,
        [1, 1, 1, 1, 2, 2, 2, 2, 11, 11, 11, 11, 12, 12, 12, 12]
    );
    assert_eq!(crop_bgra_frame(&source, 16, 3, 2, 0, 1, 3, 1).unwrap().len(), 12);
}

#[test]
fn bgra_crop_refuses_blocks_outside_the_frame_or_buffer() {

    let source = vec![0u8; 32];
    assert!(crop_bgra_frame(&source, 16, 3, 2, 2, 0, 2, 1).is_none());
    assert!(crop_bgra_frame(&source, 16, 3, 2, 0, 1, 1, 2).is_none());
    assert!(crop_bgra_frame(&source, 8, 3, 2, 0, 0, 1, 1).is_none());
    assert!(crop_bgra_frame(&source[..20], 16, 3, 2, 0, 0, 3, 2).is_none());
    assert!(crop_bgra_frame(&source, 16, 3, 2, u32::MAX, 0, 2, 1).is_none());
    assert_eq!(crop_bgra_frame(&source, 16, 3, 2, 1, 1, 0, 1), Some(Vec::new()));
}

#[test]
fn thumbnails_scale_the_long_edge() {

    assert_eq!(scale_long_edge(1920, 1080, 320), (320, 180));
    assert_eq!(scale_long_edge(1080, 1920, 320), (180, 320));
    assert_eq!(scale_long_edge(200, 100, 320), (200, 100));
    assert_eq!(scale_long_edge(0, 100, 320), (1, 1));
    assert_eq!(scale_long_edge(10_000, 1, 320), (320, 1));
}

fn identity(name: &str, x: i32, scale: f64) -> DisplayIdentity {
    DisplayIdentity {
        device_name: name.into(),
        physical_x: x,
        physical_y: 0,
        physical_width: 1920,
        physical_height: 1080,
        scale_bits: scale.to_bits(),
    }
}

#[test]
fn display_identity_survives_enumeration_reordering() {
    let selected = identity(r"\\.\DISPLAY2", 1920, 1.5);
    let reordered = vec![selected.clone(), identity(r"\\.\DISPLAY1", 0, 1.0)];
    assert_eq!(unique_display_identity_index(&selected, &reordered), Some(0));
}

#[test]
fn display_identity_fails_closed_on_disconnect_or_topology_change() {
    let selected = identity(r"\\.\DISPLAY2", 1920, 1.5);
    assert_eq!(
        unique_display_identity_index(&selected, &vec![identity(r"\\.\DISPLAY1", 0, 1.0)]),
        None
    );
    for changed in [
        identity(r"\\.\DISPLAY2", 0, 1.5),
        identity(r"\\.\DISPLAY2", 1920, 1.25),
        DisplayIdentity {
            physical_width: 2560,
            ..selected.clone()
        },
    ] {
        assert_eq!(unique_display_identity_index(&selected, &vec![changed]), None);
    }
}

#[test]
fn display_identity_fails_closed_on_ambiguous_exact_matches() {
    let selected = identity(r"\\.\DISPLAY2", 1920, 1.5);
    assert_eq!(
        unique_display_identity_index(&selected, &vec![selected.clone(), selected.clone()]),
        None
    );
}

#[test]
fn display_identity_is_found_after_other_displays() {
    let selected = identity(r"\\.\DISPLAY3", -2560, 2.0);
    let displays = vec![
        identity(r"\\.\DISPLAY1", 0, 1.0),
        identity(r"\\.\DISPLAY2", 1920, 1.5),
        selected.clone(),
    ];
    assert_eq!(unique_display_identity_index(&selected, &displays), Some(2));
    assert_eq!(unique_display_identity_index(&selected, &Vec::new()), None);
}

#[test]
fn frozen_waits_use_the_deadline_of_their_stage() {
    assert_eq!(frozen_wait_timeout(FrozenWaitStage::FirstFrame, 5000, 20000), Some(5000));
    assert_eq!(frozen_wait_timeout(FrozenWaitStage::PostProcessing, 5000, 20000), Some(20000));
    assert_eq!(frozen_wait_timeout(FrozenWaitStage::Draining, 5000, 20000), None);
}

#[test]
fn display_scales_compare_as_numbers() {
    let nan = identity(r"\\.\DISPLAY1", 0, f64::NAN);
    assert_eq!(unique_display_identity_index(&nan, &vec![nan.clone()]), None);
    let positive_zero = identity(r"\\.\DISPLAY1", 0, 0.0);
    let negative_zero = identity(r"\\.\DISPLAY1", 0, -0.0);
    assert_eq!(unique_display_identity_index(&positive_zero, &vec![negative_zero]), Some(0));
    let one = identity(r"\\.\DISPLAY1", 0, 1.0);
    assert_eq!(unique_display_identity_index(&one, &vec![identity(r"\\.\DISPLAY1", 0, 1.0 + f64::EPSILON)]), None);
}
