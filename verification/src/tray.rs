//! Labels of the status-bar (tray) menu in each supported interface language.

use vstd::prelude::*;

use crate::text::str_equals;

verus! {

/// Open-library, capture and quit labels for `language`; English for any
/// language without its own labels.
pub open spec fn spec_tray_labels(language: Seq<char>) -> (Seq<char>, Seq<char>, Seq<char>) {
    if language == "zh-Hans"@ {
        ("打开素材库"@, "截图 / 录屏"@, "退出 Kiri"@)
    } else if language == "ja"@ {
        ("ライブラリを開く"@, "キャプチャ"@, "Kiri を終了"@)
    } else {
        ("Open Library"@, "Capture"@, "Quit Kiri"@)
    }
}

/// The tray labels for the interface `language`.
pub fn tray_labels(language: &str) -> (labels: (&'static str, &'static str, &'static str))
    ensures
        (labels.0@, labels.1@, labels.2@) == spec_tray_labels(language@),
{
    if str_equals(language, "zh-Hans") {
        ("打开素材库", "截图 / 录屏", "退出 Kiri")
    } else if str_equals(language, "ja") {
        ("ライブラリを開く", "キャプチャ", "Kiri を終了")
    } else {
        ("Open Library", "Capture", "Quit Kiri")
    }
}

/// The tray menu: fixed action identifiers paired with the labels for
/// `language`, in menu order.
pub fn tray_menu_entries(language: &str) -> (entries: [(&'static str, &'static str); 3])
    ensures
        entries@[0].0@ == "open-library"@,
        entries@[1].0@ == "capture"@,
        entries@[2].0@ == "quit"@,
        (entries@[0].1@, entries@[1].1@, entries@[2].1@) == spec_tray_labels(language@),
{
    let (open_label, capture_label, quit_label) = tray_labels(language);
    [("open-library", open_label), ("capture", capture_label), ("quit", quit_label)]
}

/// Switching the interface to Chinese or Japanese replaces every tray label;
/// the action identifiers stay as `tray_menu_entries` fixes them.
pub proof fn lemma_language_switch_replaces_every_label(other: Seq<char>)
    requires
        other == "zh-Hans"@ || other == "ja"@,
    ensures
        spec_tray_labels(other).0 != spec_tray_labels("en"@).0,
        spec_tray_labels(other).1 != spec_tray_labels("en"@).1,
        spec_tray_labels(other).2 != spec_tray_labels("en"@).2,
{
    reveal_strlit("en");
    reveal_strlit("zh-Hans");
    reveal_strlit("ja");
    reveal_strlit("Open Library");
    reveal_strlit("Capture");
    reveal_strlit("Quit Kiri");
    reveal_strlit("打开素材库");
    reveal_strlit("截图 / 录屏");
    reveal_strlit("退出 Kiri");
    reveal_strlit("ライブラリを開く");
    reveal_strlit("キャプチャ");
    reveal_strlit("Kiri を終了");
    assert("en"@.len() != "zh-Hans"@.len());
    assert("en"@[0] != "ja"@[0]);
    assert("Open Library"@[0] != "打开素材库"@[0]);
    assert("Capture"@[0] != "截图 / 录屏"@[0]);
    assert("Quit Kiri"@[0] != "退出 Kiri"@[0]);
    assert("Open Library"@[0] != "ライブラリを開く"@[0]);
    assert("Capture"@[0] != "キャプチャ"@[0]);
    assert("Quit Kiri"@[0] != "Kiri を終了"@[0]);
    if other == "ja"@ {
        assert(other != "zh-Hans"@);
    }
}

} // verus!
