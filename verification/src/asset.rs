//! Kinds of library assets, their stored names, and the user-editable title
//! and tags.

use vstd::prelude::*;

use crate::text::{
    contains_text, eq_ignore_ascii_case, equals_ignore_ascii_case, lowercase, push_char, spec_contains, spec_trim,
    str_equals, trim, unicode_lowercase,
};

verus! {

/// What a library asset holds.
#[derive(Debug, Clone, Copy, PartialEq, Eq, Structural)]
pub enum CaptureKind {
    Image,
    Video,
    Gif,
}

/// The name a kind is stored under.
pub open spec fn spec_kind_name(kind: CaptureKind) -> Seq<char> {
    match kind {
        CaptureKind::Image => "image"@,
        CaptureKind::Video => "video"@,
        CaptureKind::Gif => "gif"@,
    }
}

/// The kind stored under `name`; the legacy name `longImage` reads as an image.
pub open spec fn spec_kind_from_name(name: Seq<char>) -> Option<CaptureKind> {
    if name == "image"@ || name == "longImage"@ {
        Some(CaptureKind::Image)
    } else if name == "video"@ {
        Some(CaptureKind::Video)
    } else if name == "gif"@ {
        Some(CaptureKind::Gif)
    } else {
        None
    }
}

impl CaptureKind {
    /// The name this kind is stored under.
    pub fn as_str(&self) -> (name: &'static str)
        ensures
            name@ == spec_kind_name(*self),
    {
        match self {
            CaptureKind::Image => "image",
            CaptureKind::Video => "video",
            CaptureKind::Gif => "gif",
        }
    }

    /// Reads a stored kind name, accepting the legacy `longImage`.
    pub fn from_name(name: &str) -> (kind: Option<CaptureKind>)
        ensures
            kind == spec_kind_from_name(name@),
    {
        if str_equals(name, "image") || str_equals(name, "longImage") {
            Some(CaptureKind::Image)
        } else if str_equals(name, "video") {
            Some(CaptureKind::Video)
        } else if str_equals(name, "gif") {
            Some(CaptureKind::Gif)
        } else {
            None
        }
    }
}

/// Reading back the stored name of a kind gives the kind again.
pub proof fn lemma_kind_name_round_trip(kind: CaptureKind)
    ensures
        spec_kind_from_name(spec_kind_name(kind)) == Some(kind),
{
    reveal_strlit("image");
    reveal_strlit("longImage");
    reveal_strlit("video");
    reveal_strlit("gif");
    assert("video"@[0] != "image"@[0]);
    assert("video"@.len() != "longImage"@.len());
    assert("gif"@.len() != "image"@.len());
    assert("gif"@.len() != "longImage"@.len());
    assert("gif"@.len() != "video"@.len());
}

/// The text searched for an asset, before lower-casing: its file name, the
/// application it came from when known, and its kind, separated by spaces.
pub open spec fn spec_search_source(filename: Seq<char>, source_application: Option<Seq<char>>, kind: CaptureKind) -> Seq<char> {
    let with_application = match source_application {
        Some(application) => filename + " "@ + application,
        None => filename,
    };
    with_application + " "@ + spec_kind_name(kind)
}

/// The lower-cased text a library search matches against.
pub fn searchable_text(filename: &str, source_application: Option<&str>, kind: CaptureKind) -> (text: String)
    ensures
        text@ == unicode_lowercase(
            spec_search_source(filename@, match source_application { Some(a) => Some(a@), None => None }, kind),
        ),
{
    proof {
        reveal_strlit(" ");
    }
    let mut source = String::from_str(filename);
    match source_application {
        Some(application) => {
            push_char(&mut source, ' ');
            source.append(application);
        },
        None => {},
    }
    push_char(&mut source, ' ');
    source.append(kind.as_str());
    let ghost expected = spec_search_source(
        filename@,
        match source_application { Some(a) => Some(a@), None => None },
        kind,
    );
    assert(source@ =~= expected);
    lowercase(source.as_str())
}

/// Whether an asset with lower-cased searchable text `text` is found by the
/// already normalized `query`: an empty query finds everything.
pub fn matches_normalized_query(text: &str, query: &str) -> (found: bool)
    ensures
        found == (query@.len() == 0 || spec_contains(text@, query@)),
{
    query.is_empty() || contains_text(text, query)
}

/// Whether the search `query` finds an asset with searchable text `text`; the
/// query is trimmed and lower-cased first.
pub fn search_matches(text: &str, query: &str) -> (found: bool)
    ensures
        found == (unicode_lowercase(spec_trim(query@)).len() == 0
            || spec_contains(text@, unicode_lowercase(spec_trim(query@)))),
{
    let trimmed = trim(query);
    let normalized = lowercase(trimmed.as_str());
    matches_normalized_query(text, normalized.as_str())
}

/// The title stored for a rename to `title`: trimmed, and none when nothing
/// is left.
pub open spec fn spec_asset_title(title: Seq<char>) -> Option<Seq<char>> {
    if spec_trim(title).len() == 0 { None } else { Some(spec_trim(title)) }
}

/// The title an asset gets when the user renames it to `title`.
pub fn asset_title(title: &str) -> (stored: Option<String>)
    ensures
        match stored {
            Some(t) => spec_asset_title(title@) == Some(t@),
            None => spec_asset_title(title@) is None,
        },
{
    let trimmed = trim(title);
    if trimmed.as_str().is_empty() {
        None
    } else {
        Some(trimmed)
    }
}

/// Whether some tag in `kept` equals `tag` up to ASCII case.
pub open spec fn has_tag_ignoring_case(kept: Seq<Seq<char>>, tag: Seq<char>) -> bool {
    exists|i: int| 0 <= i < kept.len() && eq_ignore_ascii_case(#[trigger] kept[i], tag)
}

/// The tags stored for `tags`: each trimmed, in order, dropping empty tags and
/// tags already present up to ASCII case.
pub open spec fn spec_asset_tags(tags: Seq<Seq<char>>) -> Seq<Seq<char>>
    decreases tags.len(),
{
    if tags.len() == 0 {
        Seq::empty()
    } else {
        let kept = spec_asset_tags(tags.drop_last());
        let tag = spec_trim(tags.last());
        if tag.len() > 0 && !has_tag_ignoring_case(kept, tag) {
            kept.push(tag)
        } else {
            kept
        }
    }
}

/// The text of each string.
pub open spec fn string_views(strings: Seq<String>) -> Seq<Seq<char>> {
    strings.map_values(|s: String| s@)
}

/// The tag list an asset gets when the user sets `tags`.
pub fn asset_tags(tags: Vec<String>) -> (stored: Vec<String>)
    ensures
        string_views(stored@) == spec_asset_tags(string_views(tags@)),
{
    let ghost all = string_views(tags@);
    let mut stored: Vec<String> = Vec::new();
    let mut i: usize = 0;
    while i < tags.len()
        invariant
            i <= tags@.len(),
            all == string_views(tags@),
            string_views(stored@) == spec_asset_tags(all.take(i as int)),
        decreases tags@.len() - i,
    {
        assert(all.take(i + 1).drop_last() =~= all.take(i as int));
        assert(all.take(i + 1).last() == tags@[i as int]@);
        let tag = trim(tags[i].as_str());
        let mut found = false;
        let mut j: usize = 0;
        while j < stored.len() && !found
            invariant
                j <= stored@.len(),
                !found ==> forall|k: int| 0 <= k < j ==> !eq_ignore_ascii_case(#[trigger] string_views(stored@)[k], tag@),
                found ==> has_tag_ignoring_case(string_views(stored@), tag@),
            decreases stored@.len() - j,
        {
            if equals_ignore_ascii_case(stored[j].as_str(), tag.as_str()) {
                assert(eq_ignore_ascii_case(string_views(stored@)[j as int], tag@));
                found = true;
            }
            j = j + 1;
        }
        let ghost kept = string_views(stored@);
        if !tag.as_str().is_empty() && !found {
            assert(!has_tag_ignoring_case(kept, tag@));
            stored.push(tag);
            assert(string_views(stored@) =~= kept.push(tag@));
        } else {
            assert(tag@.len() == 0 || has_tag_ignoring_case(kept, tag@));
        }
        i = i + 1;
    }
    assert(all.take(tags@.len() as int) =~= all);
    stored
}

/// Stored tags are never empty and no two of them are equal up to ASCII case.
pub proof fn lemma_asset_tags_distinct(tags: Seq<Seq<char>>)
    ensures
        forall|i: int| 0 <= i < spec_asset_tags(tags).len() ==> (#[trigger] spec_asset_tags(tags)[i]).len() > 0,
        forall|i: int, j: int| 0 <= i < j < spec_asset_tags(tags).len()
            ==> !eq_ignore_ascii_case(#[trigger] spec_asset_tags(tags)[i], #[trigger] spec_asset_tags(tags)[j]),
    decreases tags.len(),
{
    if tags.len() > 0 {
        lemma_asset_tags_distinct(tags.drop_last());
        let kept = spec_asset_tags(tags.drop_last());
        let tag = spec_trim(tags.last());
        if tag.len() > 0 && !has_tag_ignoring_case(kept, tag) {
            let out = kept.push(tag);
            assert forall|i: int, j: int| 0 <= i < j < out.len() implies !eq_ignore_ascii_case(#[trigger] out[i], #[trigger] out[j]) by {
                if j == out.len() - 1 {
                    assert(out[i] == kept[i]);
                    assert(!eq_ignore_ascii_case(kept[i], tag));
                } else {
                    assert(out[i] == kept[i] && out[j] == kept[j]);
                }
            }
            assert forall|i: int| 0 <= i < out.len() implies (#[trigger] out[i]).len() > 0 by {
                if i < kept.len() {
                    assert(out[i] == kept[i]);
                }
            }
        }
    }
}

} // verus!
