//! Decisions about the frontend: which windows may call privileged commands,
//! and which interface language a system locale selects.

use vstd::prelude::*;

use crate::text::{contains_text, has_prefix, lowercase, spec_contains, spec_has_prefix, str_equals, unicode_lowercase};

verus! {

/// Message returned to a window that may not call a command.
pub const UNKNOWN_WINDOW_ERROR: &'static str = "This command is unavailable from this window.";

/// The fixed labels of Kiri's own windows.
pub open spec fn is_fixed_window_label(label: Seq<char>) -> bool {
    label == "library"@ || label == "overlay"@ || label == "countdown"@ || label == "control-panel"@
        || label == "ripple"@ || label == "confirm"@ || label == "toast"@
}

/// Whether `label` names one of Kiri's windows: a fixed window, or a viewer
/// or editor window, whose labels carry a prefix.
pub open spec fn spec_known_frontend_window(label: Seq<char>) -> bool {
    is_fixed_window_label(label) || spec_has_prefix(label, "viewer-"@) || spec_has_prefix(label, "editor-"@)
}

/// Whether `label` is one of Kiri's own windows.
pub fn is_known_frontend_window(label: &str) -> (known: bool)
    ensures
        known == spec_known_frontend_window(label@),
{
    str_equals(label, "library") || str_equals(label, "overlay") || str_equals(label, "countdown")
        || str_equals(label, "control-panel") || str_equals(label, "ripple") || str_equals(label, "confirm")
        || str_equals(label, "toast") || has_prefix(label, "viewer-") || has_prefix(label, "editor-")
}

/// Admits a command from the window `label`, refusing unknown windows.
pub fn require_known_frontend_window(label: &str) -> (result: Result<(), String>)
    ensures
        spec_known_frontend_window(label@) ==> result is Ok,
        !spec_known_frontend_window(label@) ==> (result matches Err(message) && message@ == UNKNOWN_WINDOW_ERROR@),
{
    if is_known_frontend_window(label) {
        Ok(())
    } else {
        Err(String::from_str(UNKNOWN_WINDOW_ERROR))
    }
}

/// Admits a command only from the library window.
pub fn require_library_window(label: &str) -> (result: Result<(), String>)
    ensures
        label@ == "library"@ ==> result is Ok,
        label@ != "library"@ ==> (result matches Err(message) && message@ == UNKNOWN_WINDOW_ERROR@),
{
    if str_equals(label, "library") {
        Ok(())
    } else {
        Err(String::from_str(UNKNOWN_WINDOW_ERROR))
    }
}

/// The interface language for a lower-cased locale: simplified Chinese for a
/// Chinese locale written in Han simplified script or for mainland China,
/// Japanese for a Japanese locale, English otherwise.
pub open spec fn spec_locale_language(lower: Seq<char>) -> Seq<char> {
    if spec_has_prefix(lower, "zh"@) && (spec_contains(lower, "hans"@) || spec_contains(lower, "-cn"@)
        || spec_contains(lower, "_cn"@)) {
        "zh-Hans"@
    } else if spec_has_prefix(lower, "ja"@) {
        "ja"@
    } else {
        "en"@
    }
}

/// The interface language for a locale that is already lower case.
pub fn language_for_lowercase_locale(lower: &str) -> (language: &'static str)
    ensures
        language@ == spec_locale_language(lower@),
{
    if has_prefix(lower, "zh") && (contains_text(lower, "hans") || contains_text(lower, "-cn") || contains_text(
        lower,
        "_cn",
    )) {
        "zh-Hans"
    } else if has_prefix(lower, "ja") {
        "ja"
    } else {
        "en"
    }
}

/// The interface language for the system `locale`; English when the system
/// reports none.
pub fn locale_language(locale: Option<&str>) -> (language: &'static str)
    ensures
        match locale {
            Some(l) => language@ == spec_locale_language(unicode_lowercase(l@)),
            None => language@ == "en"@,
        },
{
    match locale {
        Some(l) => {
            let lower = lowercase(l);
            language_for_lowercase_locale(lower.as_str())
        },
        None => "en",
    }
}

} // verus!
