use kiri::gif::scaled_dimensions;
use kiri::policy::{RecordingOptions, RecordingOutputFormat, RecordingPolicy};
use kiri::shortcut::{
    kiri_capture, shortcut_status, ShortcutModifier, ShortcutPlatform, ShortcutRegistrationStatus,
};
use kiri::tray::{tray_labels, tray_menu_entries};

#[test]
fn even_dimension_keeps_even_and_floors_odd() {
    assert_eq!(RecordingPolicy::even_dimension(100), 100);
    assert_eq!(RecordingPolicy::even_dimension(101), 100);
    assert_eq!(RecordingPolicy::even_dimension(0), 2);
    assert_eq!(RecordingPolicy::even_dimension(-5), 2);
}

#[test]
fn even_dimension_handles_the_extremes() {
    assert_eq!(RecordingPolicy::even_dimension(1), 2);
    assert_eq!(RecordingPolicy::even_dimension(3), 2);
    assert_eq!(RecordingPolicy::even_dimension(i64::MAX), i64::MAX - 1);
    assert_eq!(RecordingPolicy::even_dimension(i64::MIN), 2);
}

#[test]
fn bit_rate_clamps_to_policy_range() {
    assert_eq!(
        RecordingPolicy::high_quality_bit_rate(1920, 1080),
        16_588_800
    );
    assert_eq!(RecordingPolicy::high_quality_bit_rate(100, 100), 4_000_000);
    assert_eq!(
        RecordingPolicy::high_quality_bit_rate(4000, 4000),
        40_000_000
    );
}

#[test]
fn bit_rate_treats_empty_and_huge_frames_as_limits() {
    assert_eq!(RecordingPolicy::high_quality_bit_rate(0, -7), 4_000_000);
    assert_eq!(RecordingPolicy::high_quality_bit_rate(i64::MAX, i64::MAX), 40_000_000);
    assert_eq!(RecordingPolicy::high_quality_bit_rate(1280, 720), 7_372_800);
}

#[test]
fn normalized_options_disable_highlights_without_cursor() {
    let options = RecordingOptions {
        shows_cursor: false,
        highlights_clicks: true,
        ..Default::default()
    };
    let normalized = options.normalized();
    assert!(!normalized.highlights_clicks);
}

#[test]
fn gif_normalization_preserves_saved_audio_preferences() {
    let options = RecordingOptions {
        output_format: RecordingOutputFormat::Gif,
        captures_system_audio: true,
        captures_microphone: true,
        ..Default::default()
    };

    let normalized = options.normalized();
    assert!(normalized.captures_system_audio);
    assert!(normalized.captures_microphone);
}

#[test]
fn default_options_record_mp4_with_countdown_and_cursor() {
    let options = RecordingOptions::default();
    assert_eq!(options.output_format, RecordingOutputFormat::Mp4);
    assert!(options.uses_countdown);
    assert!(options.shows_cursor);
    assert!(!options.highlights_clicks);
    assert!(!options.captures_system_audio);
    assert!(!options.captures_microphone);
    assert_eq!(RecordingOutputFormat::default(), RecordingOutputFormat::Mp4);
    assert_eq!(options.normalized(), options);
}

#[test]
fn normalizing_twice_changes_nothing_more() {
    let options = RecordingOptions {
        shows_cursor: false,
        highlights_clicks: true,
        ..Default::default()
    };
    let once = options.normalized();
    assert_eq!(once.normalized(), once);
}

#[test]
fn recording_policy_constants() {
    assert_eq!(RecordingPolicy::FRAMES_PER_SECOND, 30);
    assert_eq!(RecordingPolicy::GIF_FRAMES_PER_SECOND, 12);
    assert_eq!(RecordingPolicy::MAXIMUM_GIF_LONG_EDGE, 720);
}

#[test]
fn kiri_shortcut_is_shift_command_a() {
    let shortcut = kiri_capture(ShortcutPlatform::MacOs);
    assert_eq!(shortcut.key, 'a');
    assert_eq!(
        shortcut.modifiers,
        &[ShortcutModifier::Shift, ShortcutModifier::Command]
    );
}

#[test]
fn macos_display_label_uses_platform_glyphs() {
    assert_eq!(
        kiri_capture(ShortcutPlatform::MacOs).display_label(ShortcutPlatform::MacOs),
        "⇧⌘A"
    );
}

#[test]
fn kiri_shortcut_is_shift_control_a() {
    let shortcut = kiri_capture(ShortcutPlatform::Windows);
    assert_eq!(shortcut.key, 'a');
    assert_eq!(
        shortcut.modifiers,
        &[ShortcutModifier::Shift, ShortcutModifier::Control]
    );
    assert_eq!(shortcut.display_label(ShortcutPlatform::Windows), "Shift+Ctrl+A");
}

#[test]
fn modifier_tokens_follow_the_platform() {
    assert_eq!(ShortcutModifier::Shift.display_token(ShortcutPlatform::MacOs), "⇧");
    assert_eq!(ShortcutModifier::Control.display_token(ShortcutPlatform::Windows), "Ctrl");
    assert_eq!(ShortcutModifier::Shift.display_token(ShortcutPlatform::Windows), "Shift");
    assert_eq!(ShortcutModifier::Command.display_token(ShortcutPlatform::MacOs), "⌘");
}

#[test]
fn shortcut_status_reflects_native_registration() {
    for platform in [ShortcutPlatform::MacOs, ShortcutPlatform::Windows] {
        let enabled = shortcut_status(true, platform);
        assert_eq!(enabled.label, kiri_capture(platform).display_label(platform));
        assert_eq!(enabled.status, ShortcutRegistrationStatus::Enabled);
        assert_eq!(enabled.status.as_str(), "enabled");

        let occupied = shortcut_status(false, platform);
        assert_eq!(occupied.label, kiri_capture(platform).display_label(platform));
        assert_eq!(occupied.status, ShortcutRegistrationStatus::Occupied);
        assert_eq!(occupied.status.as_str(), "occupied");
    }
}

#[test]
fn scaling_caps_landscape_and_portrait_long_edges() {
    assert_eq!(scaled_dimensions(1920, 1080, 720), (720, 405));
    assert_eq!(scaled_dimensions(1080, 1920, 720), (405, 720));
    assert_eq!(scaled_dimensions(640, 480, 720), (640, 480));
}

#[test]
fn scaling_keeps_one_pixel_and_ignores_zero_sizes() {
    assert_eq!(scaled_dimensions(10_000, 1, 720), (720, 1));
    assert_eq!(scaled_dimensions(0, 1080, 720), (0, 1080));
    assert_eq!(scaled_dimensions(1920, 1080, 0), (1920, 1080));
    assert_eq!(scaled_dimensions(u32::MAX, u32::MAX, 720), (720, 720));
}

#[test]
fn tray_labels_cover_supported_languages_and_default_to_english() {
    assert_eq!(tray_labels("en"), ("Open Library", "Capture", "Quit Kiri"));
    assert_eq!(
        tray_labels("zh-Hans"),
        ("打开素材库", "截图 / 录屏", "退出 Kiri")
    );
    assert_eq!(
        tray_labels("ja"),
        ("ライブラリを開く", "キャプチャ", "Kiri を終了")
    );
    assert_eq!(
        tray_labels("unknown"),
        ("Open Library", "Capture", "Quit Kiri")
    );
}

#[test]
fn tray_language_switch_keeps_action_ids_and_replaces_every_label() {
    let english = tray_menu_entries("en");
    let chinese = tray_menu_entries("zh-Hans");
    let japanese = tray_menu_entries("ja");
    assert_eq!(english.map(|(id, _)| id), chinese.map(|(id, _)| id));
    assert_eq!(english.map(|(id, _)| id), japanese.map(|(id, _)| id));
    for index in 0..english.len() {
        assert_ne!(english[index].1, chinese[index].1);
        assert_ne!(english[index].1, japanese[index].1);
    }
}

#[test]
fn tray_entries_pair_fixed_ids_with_labels() {
    assert_eq!(
        tray_menu_entries("ja"),
        [
            ("open-library", "ライブラリを開く"),
            ("capture", "キャプチャ"),
            ("quit", "Kiri を終了"),
        ]
    );
}

#[test]
fn gif_sessions_record_without_audio_and_keep_the_saved_choice() {
    let saved = RecordingOptions {
        output_format: RecordingOutputFormat::Gif,
        uses_countdown: false,
        captures_system_audio: true,
        captures_microphone: true,
        shows_cursor: false,
        highlights_clicks: true,
    };
    let session = saved.for_session();
    assert!(!session.captures_system_audio && !session.captures_microphone);
    assert!(!session.highlights_clicks);
    assert!(!session.uses_countdown);
    assert!(saved.captures_system_audio && saved.captures_microphone);

    let mp4 = RecordingOptions { output_format: RecordingOutputFormat::Mp4, ..saved };
    let session = mp4.for_session();
    assert!(session.captures_system_audio && session.captures_microphone);
    assert_eq!(session, mp4.normalized());
}
