use kiri::asset::{matches_normalized_query, search_matches, searchable_text, CaptureKind};
use kiri::asset_index::{
    asset_position, batch_selection, checked_extension, split_selected, validated_extension,
    view_order, AssetIndexError, AssetOrderEntry,
};

#[test]
fn searchable_text_matches_swift() {
    assert_eq!(
        searchable_text("20240101-120000-abc.png", Some("Safari"), CaptureKind::Image),
        "20240101-120000-abc.png safari image"
    );
    assert_eq!(
        searchable_text("Clip.MP4", None, CaptureKind::Video),
        "clip.mp4 video"
    );
}

#[test]
fn search_trims_and_lowercases_the_query() {
    let text = searchable_text("20240101-120000-abc.png", Some("Safari"), CaptureKind::Image);
    assert!(search_matches(&text, "  SAFARI "));
    assert!(search_matches(&text, "abc.png saf"));
    assert!(search_matches(&text, "   "));
    assert!(!search_matches(&text, "video"));
    assert!(matches_normalized_query(&text, ""));
    assert!(!matches_normalized_query(&text, "Safari"));
}

#[test]
fn assets_are_found_at_their_first_position() {
    let ids = vec![10, 20, 30, 20];
    assert_eq!(asset_position(&ids, 20), Some(1));
    assert_eq!(asset_position(&ids, 30), Some(2));
    assert_eq!(asset_position(&ids, 40), None);
    assert_eq!(asset_position(&Vec::new(), 40), None);
}

#[test]
fn batch_validation_failure_selects_nothing() {
    let ids = vec![10, 20, 30];
    assert_eq!(batch_selection(&ids, &vec![20, 99]), Err(AssetIndexError::AssetNotFound));
    assert_eq!(batch_selection(&ids, &vec![30, 10, 30]), Ok(vec![true, false, true]));
    assert_eq!(batch_selection(&ids, &Vec::new()), Ok(vec![false, false, false]));
}

#[test]
fn batch_delete_splits_the_index_in_order() {
    let index = vec!["a", "b", "c", "d"];
    let (removed, kept) = split_selected(index, &vec![false, true, false, true]);
    assert_eq!(removed, vec!["b", "d"]);
    assert_eq!(kept, vec!["a", "c"]);

    let (removed, kept) = split_selected(Vec::<u8>::new(), &Vec::new());
    assert!(removed.is_empty() && kept.is_empty());
}

#[test]
fn empty_trash_keeps_active_assets() {
    let index = vec![("active", false), ("trashed", true), ("other", false)];
    let trashed: Vec<bool> = index.iter().map(|asset| asset.1).collect();
    let (removed, kept) = split_selected(index, &trashed);
    assert_eq!(removed, vec![("trashed", true)]);
    assert_eq!(kept, vec![("active", false), ("other", false)]);
}

#[test]
fn library_extensions_are_plain_lowercase_words() {
    assert_eq!(validated_extension(".PNG"), Ok("png".to_string()));
    assert_eq!(validated_extension("..mp4."), Ok("mp4".to_string()));
    assert_eq!(validated_extension("../evil"), Err(AssetIndexError::InvalidFilename));
    assert_eq!(validated_extension("..."), Err(AssetIndexError::InvalidFilename));
    assert_eq!(validated_extension("jp g"), Err(AssetIndexError::InvalidFilename));
    assert_eq!(validated_extension("ｐｎｇ"), Err(AssetIndexError::InvalidFilename));
    assert_eq!(checked_extension("gif".to_string()), Ok("gif".to_string()));
    assert_eq!(checked_extension(String::new()), Err(AssetIndexError::InvalidFilename));
}

fn order_entry(trashed: bool, created_at: f64) -> AssetOrderEntry {
    AssetOrderEntry {
        trashed,
        created_at_bits: created_at.to_bits(),
    }
}

#[test]
fn all_assets_splits_trashed_from_active_newest_first() {
    let entries = vec![
        order_entry(false, 1_700_000_000_000.0),
        order_entry(true, 1_700_000_000_500.0),
        order_entry(false, 1_700_000_000_900.5),
        order_entry(false, 1_700_000_000_000.0),
        order_entry(true, 1_600_000_000_000.0),
    ];
    assert_eq!(view_order(&entries, false), vec![2, 0, 3]);
    assert_eq!(view_order(&entries, true), vec![1, 4]);
    assert!(view_order(&Vec::new(), false).is_empty());
}

#[test]
fn view_order_follows_total_order_of_times() {
    let entries = vec![
        order_entry(false, -0.0),
        order_entry(false, 0.0),
        order_entry(false, -5.0),
        order_entry(false, f64::INFINITY),
        order_entry(false, f64::NEG_INFINITY),
    ];
    let order = view_order(&entries, false);
    assert_eq!(order, vec![3, 1, 0, 2, 4]);
    let mut expected: Vec<usize> = (0..entries.len()).collect();
    expected.sort_by(|a, b| {
        f64::from_bits(entries[*b].created_at_bits).total_cmp(&f64::from_bits(entries[*a].created_at_bits))
    });
    assert_eq!(order, expected);
}

#[test]
fn rejects_invalid_extensions() {
    assert!(matches!(validated_extension("../evil"), Err(AssetIndexError::InvalidFilename)));
}

#[test]
fn all_assets_splits_trashed_from_active() {
    // One active capture, then one moved to the trash.
    let entries = vec![order_entry(false, 1_700_000_000_000.0), order_entry(true, 1_700_000_000_001.0)];
    let active = view_order(&entries, false);
    let trashed = view_order(&entries, true);
    assert_eq!(active, vec![0]);
    assert_eq!(trashed, vec![1]);
    assert!(!trashed.contains(&0));
}

#[test]
fn empty_trash_removes_only_trashed() {
    let index = vec![("kept", false), ("gone", true)];
    let trashed: Vec<bool> = index.iter().map(|asset| asset.1).collect();
    let (removed, kept) = split_selected(index, &trashed);
    assert_eq!(removed, vec![("gone", true)]);
    assert_eq!(kept, vec![("kept", false)]);
}

#[test]
fn search_matches_swift_fields() {
    let text = searchable_text("20231114-221320-0a1b2c3d-0000-4000-8000-000000000001.png", Some("Safari"), CaptureKind::Image);
    assert!(search_matches(&text, "safari"));
    assert!(search_matches(&text, "png"));
    assert!(!search_matches(&text, "nomatch"));
    assert!(search_matches(&text, ""));
}

#[test]
fn batch_validation_failure_has_no_partial_mutation_or_persist() {
    let index = vec![1u128, 2u128];
    let missing = 99u128;
    let requested = vec![index[0], missing, index[1]];
    assert!(matches!(batch_selection(&index, &requested), Err(AssetIndexError::AssetNotFound)));
    assert_eq!(batch_selection(&index, &vec![index[0], index[1]]), Ok(vec![true, true]));
}
