use kiri::asset::{asset_tags, asset_title};
use kiri::editor::{
    editor_save_destination, editor_window_id, require_editor_window, EDITOR_ONLY_ERROR,
    MATCHING_EDITOR_ONLY_ERROR, SAVE_DESTINATION_ERROR,
};
use kiri::frontend::{
    is_known_frontend_window, language_for_lowercase_locale, locale_language,
    require_known_frontend_window, require_library_window, UNKNOWN_WINDOW_ERROR,
};
use kiri::media_pipeline::escape_pipeline_path;
use kiri::recording_session::{
    library_change_allowed, RecordingFlags, CAPTURE_BUSY_ERROR, RECORDING_BUSY_ERROR,
};
use kiri::library_migration::{
    fingerprints_identical, is_managed_root_entry, manifest_covers, manifests_match,
    ManifestEntry,
};
use kiri::recording::{
    finalization_cleanup, finalize_outcome, FinalizationCleanup, RecordingFinalizeError,
};
use kiri::text::{contains_text, has_prefix};

#[test]
fn only_kiri_windows_may_call_commands() {
    for label in [
        "library",
        "overlay",
        "countdown",
        "control-panel",
        "ripple",
        "confirm",
        "toast",
        "viewer-1",
        "editor-00000000-0000-0000-0000-000000000001",
    ] {
        assert!(is_known_frontend_window(label), "{label}");
        assert_eq!(require_known_frontend_window(label), Ok(()));
    }
    for label in ["settings", "viewer", "editor", "Library", "toast-2", ""] {
        assert_eq!(
            require_known_frontend_window(label),
            Err(UNKNOWN_WINDOW_ERROR.to_string()),
            "{label}"
        );
    }
}

#[test]
fn system_locales_select_the_interface_language() {
    assert_eq!(locale_language(Some("zh-Hans-CN")), "zh-Hans");
    assert_eq!(locale_language(Some("zh_CN")), "zh-Hans");
    assert_eq!(locale_language(Some("ZH-cn")), "zh-Hans");
    assert_eq!(locale_language(Some("zh-Hant-TW")), "en");
    assert_eq!(locale_language(Some("zh-TW")), "en");
    assert_eq!(locale_language(Some("ja-JP")), "ja");
    assert_eq!(locale_language(Some("JA")), "ja");
    assert_eq!(locale_language(Some("fr-FR")), "en");
    assert_eq!(locale_language(None), "en");
    assert_eq!(language_for_lowercase_locale("zh-hans"), "zh-Hans");
    assert_eq!(language_for_lowercase_locale("ZH-HANS"), "en");
}

#[test]
fn prefix_and_substring_search() {
    assert!(has_prefix("viewer-1", "viewer-"));
    assert!(has_prefix("abc", ""));
    assert!(!has_prefix("ab", "abc"));
    assert!(contains_text("zh-hans-cn", "-cn"));
    assert!(contains_text("abc", ""));
    assert!(!contains_text("zh-tw", "hans"));
    assert!(contains_text("界面zh", "zh"));
}

#[test]
fn renamed_titles_are_trimmed_and_blank_titles_clear() {
    assert_eq!(asset_title("  Holiday  ").as_deref(), Some("Holiday"));
    assert_eq!(asset_title("   "), None);
    assert_eq!(asset_title(""), None);
}

#[test]
fn tags_are_trimmed_and_deduplicated_ignoring_ascii_case() {
    let tags = vec![
        " Work ".to_string(),
        "work".to_string(),
        "".to_string(),
        "Travel".to_string(),
        "  ".to_string(),
        "TRAVEL".to_string(),
        "Ünïcode".to_string(),
        "üNÏCODE".to_string(),
    ];
    assert_eq!(
        asset_tags(tags),
        vec!["Work", "Travel", "Ünïcode", "üNÏCODE"]
    );
    assert!(asset_tags(Vec::new()).is_empty());
}

#[test]
fn an_unkept_recording_keeps_its_segments_and_merge() {
    assert_eq!(
        finalization_cleanup(true, false),
        FinalizationCleanup {
            remove_segments: false,
            remove_merged: false
        }
    );
    assert_eq!(
        finalization_cleanup(true, true),
        FinalizationCleanup {
            remove_segments: true,
            remove_merged: true
        }
    );
}

#[test]
fn an_unfinished_merge_output_is_removed() {
    assert_eq!(
        finalization_cleanup(false, false),
        FinalizationCleanup {
            remove_segments: false,
            remove_merged: true
        }
    );
}

#[test]
fn a_kept_recording_failure_is_reported_as_queued() {
    let queued = finalize_outcome::<u8>(Err("disk full".into()), true).unwrap_err();
    assert!(queued.is_queued());
    assert_eq!(queued.to_string(), "disk full");
    let failed = finalize_outcome::<u8>(Err("disk full".into()), false).unwrap_err();
    assert!(!failed.is_queued());
    assert_eq!(failed, RecordingFinalizeError::Failed("disk full".into()));
    assert_eq!(finalize_outcome(Ok(3), false), Ok(3));
}

fn entry(path: &str, len: u64, sha: &str) -> ManifestEntry {
    (path.to_string(), len, sha.to_string())
}

#[test]
fn staged_copy_must_match_the_source_manifest() {
    let source = vec![entry("Assets/a.png", 3, "aa"), entry("Assets/b.png", 4, "bb")];
    assert!(manifests_match(&source, &source.clone()));
    assert!(!manifests_match(&source, &source[..1].to_vec()));
    let changed = vec![entry("Assets/a.png", 3, "aa"), entry("Assets/b.png", 4, "bc")];
    assert!(!manifests_match(&source, &changed));
}

#[test]
fn manifest_coverage_refuses_files_missing_from_the_source() {
    let source = vec![entry("Assets/a.png", 3, "aa"), entry("Assets/b.png", 4, "bb")];
    assert!(manifest_covers(&source, &vec![entry("Assets/b.png", 4, "bb")]));
    assert!(manifest_covers(&source, &Vec::new()));
    assert!(!manifest_covers(&source, &vec![entry("Assets/c.png", 4, "bb")]));
    assert!(!manifest_covers(&source, &vec![entry("Assets/b.png", 5, "bb")]));
    assert!(!manifest_covers(&source, &vec![entry("Assets/b.png", 4, "cc")]));
}

#[test]
fn root_entries_and_fingerprints() {
    for name in [".kiri-library.json", "library.json", "Assets", "Annotations", "Thumbnails", ".DS_Store"] {
        assert!(is_managed_root_entry(name));
    }
    assert!(!is_managed_root_entry("notes.txt"));
    assert!(!is_managed_root_entry("assets"));
    assert!(fingerprints_identical(3, "aa", 3, "aa"));
    assert!(!fingerprints_identical(3, "aa", 4, "aa"));
    assert!(!fingerprints_identical(3, "aa", 3, "ab"));
}

#[test]
fn library_only_commands_refuse_other_windows() {
    assert_eq!(require_library_window("library"), Ok(()));
    assert_eq!(
        require_library_window("overlay"),
        Err(UNKNOWN_WINDOW_ERROR.to_string())
    );
}

#[test]
fn editor_windows_are_named_by_their_asset() {
    let id = 0x0000_0000_0000_0000_0000_0000_0000_0001u128;
    let label = "editor-00000000-0000-0000-0000-000000000001";
    assert_eq!(editor_window_id(label), Ok(id));
    assert_eq!(require_editor_window(label, id), Ok(()));
    assert_eq!(
        require_editor_window(label, 2),
        Err(MATCHING_EDITOR_ONLY_ERROR.to_string())
    );
    assert_eq!(
        editor_window_id("viewer-00000000-0000-0000-0000-000000000001"),
        Err(EDITOR_ONLY_ERROR.to_string())
    );
    assert_eq!(editor_window_id("editor-nonsense"), Err(EDITOR_ONLY_ERROR.to_string()));
    // A parseable but non-canonical spelling is not the editor's label.
    assert_eq!(
        editor_window_id("editor-00000000000000000000000000000001"),
        Err(MATCHING_EDITOR_ONLY_ERROR.to_string())
    );
    assert_eq!(
        editor_window_id("editor-00000000-0000-0000-0000-00000000000A"),
        Err(MATCHING_EDITOR_ONLY_ERROR.to_string())
    );
}

#[test]
fn editor_save_destination_requires_the_approved_token() {
    assert_eq!(editor_save_destination(Some((5, "/tmp/a.png")), None), Ok(None));
    assert_eq!(editor_save_destination::<&str>(None, None), Ok(None));
    assert_eq!(
        editor_save_destination(Some((5, "/tmp/kiri-approved.png")), Some(5)),
        Ok(Some("/tmp/kiri-approved.png"))
    );
    assert_eq!(
        editor_save_destination(Some((5, "/tmp/a.png")), Some(6)),
        Err(SAVE_DESTINATION_ERROR.to_string())
    );
    assert_eq!(
        editor_save_destination::<&str>(None, Some(6)),
        Err(SAVE_DESTINATION_ERROR.to_string())
    );
}

#[test]
fn pipeline_paths_escape_backslashes_and_quotes() {
    assert_eq!(escape_pipeline_path("/tmp/out.mp4"), "/tmp/out.mp4");
    assert_eq!(escape_pipeline_path(r#"C:\a "b".mp4"#), r#"C:\\a \"b\".mp4"#);
    assert_eq!(escape_pipeline_path(""), "");
}

#[test]
fn the_library_moves_only_while_idle() {
    let idle = RecordingFlags {
        is_starting: false,
        is_recording: false,
        is_paused: false,
        is_transitioning: false,
        is_finalizing: false,
    };
    assert_eq!(library_change_allowed(false, idle), Ok(()));
    assert_eq!(
        library_change_allowed(true, idle),
        Err(CAPTURE_BUSY_ERROR.to_string())
    );
    assert_eq!(
        library_change_allowed(false, RecordingFlags { is_finalizing: true, ..idle }),
        Err(RECORDING_BUSY_ERROR.to_string())
    );
}

#[test]
fn editor_labels_compare_exactly() {
    assert_eq!(kiri::editor::require_editor_label("editor-abc", "abc"), Ok(()));
    assert!(kiri::editor::require_editor_label("editor-abcd", "abc").is_err());
}

#[test]
fn editor_labels_write_the_id_as_grouped_lowercase_hex() {
    let id: u128 = 0x0123_4567_89ab_cdef_fedc_ba98_7654_3210;
    assert_eq!(require_editor_window("editor-01234567-89ab-cdef-fedc-ba9876543210", id), Ok(()));
    assert!(require_editor_window("editor-01234567-89AB-CDEF-FEDC-BA9876543210", id).is_err());
    assert_eq!(editor_window_id("editor-01234567-89ab-cdef-fedc-ba9876543210"), Ok(id));
}
