//! Selection rules of the asset index: finding an asset, validating a batch
//! of requested assets, and splitting the index into the assets an operation
//! takes out and those it keeps, both in index order.

use vstd::prelude::*;

use crate::text::{chars_of, lowercase, spec_trim_matches_char, trim_matches_char, unicode_lowercase};

verus! {

/// Why an index operation was refused.
#[derive(Debug, Clone, Copy, PartialEq, Eq, Structural)]
pub enum AssetIndexError {
    /// A requested asset is not in the index.
    AssetNotFound,
    /// A file extension is not a plain ASCII word.
    InvalidFilename,
}

/// Whether `ids` holds `id`.
pub open spec fn holds_id(ids: Seq<u128>, id: u128) -> bool {
    exists|j: int| 0 <= j < ids.len() && ids[j] == id
}

/// The position of the first asset with id `id`.
pub fn asset_position(index_ids: &Vec<u128>, id: u128) -> (position: Option<usize>)
    ensures
        match position {
            Some(p) => p < index_ids@.len() && index_ids@[p as int] == id
                && forall|k: int| 0 <= k < p ==> index_ids@[k] != id,
            None => !holds_id(index_ids@, id),
        },
{
    let mut i: usize = 0;
    while i < index_ids.len()
        invariant
            i <= index_ids@.len(),
            forall|k: int| 0 <= k < i ==> index_ids@[k] != id,
        decreases index_ids@.len() - i,
    {
        if index_ids[i] == id {
            return Some(i);
        }
        i = i + 1;
    }
    None
}

fn contains_id(ids: &Vec<u128>, id: u128) -> (found: bool)
    ensures
        found == holds_id(ids@, id),
{
    match asset_position(ids, id) {
        Some(p) => true,
        None => false,
    }
}

/// The assets a batch operation selects: every requested id must be in the
/// index, and then an asset is selected when its id was requested.
pub open spec fn spec_batch_selection(index_ids: Seq<u128>, requested: Seq<u128>) -> Result<Seq<bool>, AssetIndexError> {
    if forall|j: int| 0 <= j < requested.len() ==> holds_id(index_ids, #[trigger] requested[j]) {
        Ok(Seq::new(index_ids.len(), |i: int| holds_id(requested, index_ids[i])))
    } else {
        Err(AssetIndexError::AssetNotFound)
    }
}

/// Validates a batch request against the index and marks, position by
/// position, the assets it selects.
pub fn batch_selection(index_ids: &Vec<u128>, requested: &Vec<u128>) -> (selection: Result<Vec<bool>, AssetIndexError>)
    ensures
        match spec_batch_selection(index_ids@, requested@) {
            Ok(mask) => selection matches Ok(m) && m@ == mask,
            Err(e) => selection == Err::<Vec<bool>, AssetIndexError>(e),
        },
{
    let mut j: usize = 0;
    while j < requested.len()
        invariant
            j <= requested@.len(),
            forall|k: int| 0 <= k < j ==> holds_id(index_ids@, #[trigger] requested@[k]),
        decreases requested@.len() - j,
    {
        if !contains_id(index_ids, requested[j]) {
            return Err(AssetIndexError::AssetNotFound);
        }
        j = j + 1;
    }
    let ghost expected = Seq::new(index_ids@.len(), |i: int| holds_id(requested@, index_ids@[i]));
    let mut mask: Vec<bool> = Vec::new();
    let mut i: usize = 0;
    while i < index_ids.len()
        invariant
            i <= index_ids@.len(),
            expected == Seq::new(index_ids@.len(), |i: int| holds_id(requested@, index_ids@[i])),
            mask@ == expected.take(i as int),
        decreases index_ids@.len() - i,
    {
        let selected = contains_id(requested, index_ids[i]);
        mask.push(selected);
        assert(mask@ =~= expected.take(i + 1));
        i = i + 1;
    }
    assert(mask@ =~= expected);
    Ok(mask)
}

/// A valid request names at least one asset exactly when it selects one.
pub proof fn lemma_selection_empty_iff_no_request(index_ids: Seq<u128>, requested: Seq<u128>)
    requires
        spec_batch_selection(index_ids, requested) is Ok,
    ensures
        (requested.len() == 0) <==> (forall|i: int| 0 <= i < index_ids.len()
            ==> !(#[trigger] spec_batch_selection(index_ids, requested)->Ok_0[i])),
{
    let mask = spec_batch_selection(index_ids, requested)->Ok_0;
    if requested.len() > 0 {
        assert(holds_id(index_ids, requested[0]));
        let j = choose|j: int| 0 <= j < index_ids.len() && index_ids[j] == requested[0];
        assert(mask[j]);
    }
}

/// The items at the positions `selected` marks, in order.
pub open spec fn chosen_items<T>(items: Seq<T>, selected: Seq<bool>) -> Seq<T>
    decreases items.len(),
{
    if items.len() == 0 {
        Seq::empty()
    } else if selected[items.len() - 1] {
        chosen_items(items.drop_last(), selected).push(items.last())
    } else {
        chosen_items(items.drop_last(), selected)
    }
}

/// The items at the positions `selected` leaves unmarked, in order.
pub open spec fn unchosen_items<T>(items: Seq<T>, selected: Seq<bool>) -> Seq<T>
    decreases items.len(),
{
    if items.len() == 0 {
        Seq::empty()
    } else if selected[items.len() - 1] {
        unchosen_items(items.drop_last(), selected)
    } else {
        unchosen_items(items.drop_last(), selected).push(items.last())
    }
}

/// Splits `items` into the selected ones and the rest, each in index order.
pub fn split_selected<T>(items: Vec<T>, selected: &Vec<bool>) -> (parts: (Vec<T>, Vec<T>))
    requires
        selected@.len() == items@.len(),
    ensures
        parts.0@ == chosen_items(items@, selected@),
        parts.1@ == unchosen_items(items@, selected@),
{
    let ghost all = items@;
    let mut chosen: Vec<T> = Vec::new();
    let mut rest: Vec<T> = Vec::new();
    let mut i: usize = 0;
    assert(all.len() == items.len());
    proof {
        broadcast use vstd::std_specs::vec::axiom_spec_into_iter;
    }
    for item in iter: items.into_iter()
        invariant
            iter.seq() == all,
            i == iter.index(),
            selected@.len() == all.len(),
            all.len() <= usize::MAX,
            chosen@ == chosen_items(all.take(i as int), selected@),
            rest@ == unchosen_items(all.take(i as int), selected@),
    {
        assert(all.take(i + 1).drop_last() =~= all.take(i as int));
        assert(all.take(i + 1).last() == item);
        if selected[i] {
            chosen.push(item);
        } else {
            rest.push(item);
        }
        i = i + 1;
    }
    assert(all.take(all.len() as int) =~= all);
    (chosen, rest)
}

/// Splitting loses and duplicates nothing: as multisets, the two parts
/// together are exactly the items.
pub proof fn lemma_split_is_a_partition<T>(items: Seq<T>, selected: Seq<bool>)
    requires
        selected.len() == items.len(),
    ensures
        chosen_items(items, selected).to_multiset().add(unchosen_items(items, selected).to_multiset())
            =~= items.to_multiset(),
        chosen_items(items, selected).len() + unchosen_items(items, selected).len() == items.len(),
    decreases items.len(),
{
    broadcast use vstd::seq_lib::group_to_multiset_ensures;
    if items.len() > 0 {
        let rest = items.drop_last();
        lemma_split_is_a_partition(rest, selected.take(rest.len() as int));
        lemma_mask_prefix(rest, selected);
        assert(items =~= rest.push(items.last()));
    }
}

proof fn lemma_mask_prefix<T>(items: Seq<T>, selected: Seq<bool>)
    requires
        items.len() <= selected.len(),
    ensures
        chosen_items(items, selected) == chosen_items(items, selected.take(items.len() as int)),
        unchosen_items(items, selected) == unchosen_items(items, selected.take(items.len() as int)),
    decreases items.len(),
{
    if items.len() > 0 {
        lemma_mask_prefix(items.drop_last(), selected);
        lemma_mask_prefix(items.drop_last(), selected.take(items.len() as int));
        assert(selected.take(items.len() as int).take(items.len() - 1) =~= selected.take(items.len() - 1));
    }
}

/// Whether `c` is an ASCII letter or digit.
pub open spec fn is_ascii_alphanumeric(c: char) -> bool {
    ('0' <= c && c <= '9') || ('a' <= c && c <= 'z') || ('A' <= c && c <= 'Z')
}

/// The extension a new asset file gets: without surrounding dots, lower
/// case, and nonempty ASCII letters and digits only.
pub open spec fn spec_validated_extension(extension: Seq<char>) -> Result<Seq<char>, AssetIndexError> {
    let safe = unicode_lowercase(spec_trim_matches_char(extension, '.'));
    if safe.len() > 0 && forall|i: int| 0 <= i < safe.len() ==> is_ascii_alphanumeric(#[trigger] safe[i]) {
        Ok(safe)
    } else {
        Err(AssetIndexError::InvalidFilename)
    }
}

/// Accepts an already trimmed and lower-cased extension when it is a
/// nonempty run of ASCII letters and digits.
pub fn checked_extension(safe: String) -> (checked: Result<String, AssetIndexError>)
    ensures
        (safe@.len() > 0 && forall|i: int| 0 <= i < safe@.len() ==> is_ascii_alphanumeric(#[trigger] safe@[i]))
            ==> checked == Ok::<String, AssetIndexError>(safe),
        !(safe@.len() > 0 && forall|i: int| 0 <= i < safe@.len() ==> is_ascii_alphanumeric(#[trigger] safe@[i]))
            ==> checked == Err::<String, AssetIndexError>(AssetIndexError::InvalidFilename),
{
    let chars = chars_of(safe.as_str());
    if chars.len() == 0 {
        return Err(AssetIndexError::InvalidFilename);
    }
    let mut i: usize = 0;
    while i < chars.len()
        invariant
            i <= chars@.len(),
            chars@ == safe@,
            forall|j: int| 0 <= j < i ==> is_ascii_alphanumeric(#[trigger] chars@[j]),
        decreases chars@.len() - i,
    {
        let c = chars[i];
        if !(('0' <= c && c <= '9') || ('a' <= c && c <= 'z') || ('A' <= c && c <= 'Z')) {
            assert(!is_ascii_alphanumeric(chars@[i as int]));
            return Err(AssetIndexError::InvalidFilename);
        }
        i = i + 1;
    }
    Ok(safe)
}

/// Validates the extension of a file added to the library.
pub fn validated_extension(extension: &str) -> (safe: Result<String, AssetIndexError>)
    ensures
        match spec_validated_extension(extension@) {
            Ok(expected) => safe matches Ok(s) && s@ == expected,
            Err(error) => safe == Err::<String, AssetIndexError>(error),
        },
{
    let trimmed = trim_matches_char(extension, '.');
    checked_extension(lowercase(trimmed.as_str()))
}

/// The key by which `f64::total_cmp` orders the number whose IEEE-754 bits
/// are `bits`: the bits read as a signed integer, with the magnitude bits of
/// negative numbers reversed.
pub open spec fn total_order_key(bits: u64) -> int {
    if bits < 0x8000_0000_0000_0000 { bits as int } else { 0x7fff_ffff_ffff_ffff - bits }
}

fn total_order_key_of(bits: u64) -> (key: i64)
    ensures
        key == total_order_key(bits),
{
    if bits < 0x8000_0000_0000_0000 {
        bits as i64
    } else {
        -1 - ((bits - 0x8000_0000_0000_0000) as i64)
    }
}

/// What the library views read of an asset: whether it is in the trash, and
/// the IEEE-754 bits of its creation time in milliseconds.
#[derive(Debug, Clone, Copy, PartialEq, Eq, Structural)]
pub struct AssetOrderEntry {
    pub trashed: bool,
    pub created_at_bits: u64,
}

/// Whether a view shows the asset: the trash view shows trashed assets, the
/// library view the others.
pub open spec fn shown_in_view(entry: AssetOrderEntry, include_trashed: bool) -> bool {
    entry.trashed == include_trashed
}

/// Whether position `a` comes before position `b` in a view: newer first,
/// and equal creation times in index order.
pub open spec fn shown_before(entries: Seq<AssetOrderEntry>, a: int, b: int) -> bool {
    total_order_key(entries[a].created_at_bits) > total_order_key(entries[b].created_at_bits)
        || (total_order_key(entries[a].created_at_bits) == total_order_key(entries[b].created_at_bits) && a < b)
}

/// Whether `order` lists exactly the positions the view shows, each once,
/// newest first and ties in index order.
pub open spec fn is_view_order(entries: Seq<AssetOrderEntry>, include_trashed: bool, order: Seq<usize>) -> bool {
    &&& forall|k: int| 0 <= k < order.len() ==> (#[trigger] order[k]) < entries.len() && shown_in_view(entries[order[k] as int], include_trashed)
    &&& forall|i: int| 0 <= i < entries.len() && shown_in_view(entries[i], include_trashed)
        ==> exists|k: int| 0 <= k < order.len() && #[trigger] order[k] == i
    &&& forall|k1: int, k2: int| 0 <= k1 < k2 < order.len() ==> shown_before(entries, #[trigger] order[k1] as int, #[trigger] order[k2] as int)
}

/// The positions of the assets a library view lists, in display order: the
/// trash or the library, newest first (by `f64::total_cmp` of the creation
/// time), assets created at the same time in index order.
pub fn view_order(entries: &Vec<AssetOrderEntry>, include_trashed: bool) -> (order: Vec<usize>)
    ensures
        is_view_order(entries@, include_trashed, order@),
{
    let mut order: Vec<usize> = Vec::new();
    let mut i: usize = 0;
    while i < entries.len()
        invariant
            i <= entries@.len(),
            forall|k: int| 0 <= k < order@.len() ==> (#[trigger] order@[k]) < i && shown_in_view(entries@[order@[k] as int], include_trashed),
            forall|j: int| 0 <= j < i && shown_in_view(entries@[j], include_trashed)
                ==> exists|k: int| 0 <= k < order@.len() && #[trigger] order@[k] == j,
            forall|k1: int, k2: int| 0 <= k1 < k2 < order@.len() ==> shown_before(entries@, #[trigger] order@[k1] as int, #[trigger] order@[k2] as int),
        decreases entries@.len() - i,
    {
        let entry = entries[i];
        if entry.trashed == include_trashed {
            let key = total_order_key_of(entry.created_at_bits);
            let mut p: usize = 0;
            while p < order.len() && total_order_key_of(entries[order[p]].created_at_bits) >= key
                invariant
                    p <= order@.len(),
                    i < entries@.len(),
                    key == total_order_key(entries@[i as int].created_at_bits),
                    forall|k: int| 0 <= k < order@.len() ==> (#[trigger] order@[k]) < i,
                    forall|k: int| 0 <= k < p ==> total_order_key(entries@[(#[trigger] order@[k]) as int].created_at_bits) >= key,
                decreases order@.len() - p,
            {
                p = p + 1;
            }
            let ghost before = order@;
            proof {
                // Everything after `p` is strictly older than the new asset.
                assert forall|k: int| p <= k < before.len() implies total_order_key(entries@[(#[trigger] before[k]) as int].created_at_bits) < key by {
                    if p < before.len() && k > p {
                        assert(shown_before(entries@, before[p as int] as int, before[k] as int));
                    }
                }
            }
            order.insert(p, i);
            proof {
                assert forall|k1: int, k2: int| 0 <= k1 < k2 < order@.len() implies shown_before(entries@, #[trigger] order@[k1] as int, #[trigger] order@[k2] as int) by {
                    if k1 < p as int && k2 < p as int {
                        assert(order@[k1] == before[k1] && order@[k2] == before[k2]);
                    } else if k1 < p as int && k2 == p as int {
                        assert(order@[k1] == before[k1]);
                    } else if k1 < p as int {
                        assert(order@[k1] == before[k1] && order@[k2] == before[k2 - 1]);
                    } else if k1 == p as int {
                        assert(order@[k2] == before[k2 - 1]);
                    } else {
                        assert(order@[k1] == before[k1 - 1] && order@[k2] == before[k2 - 1]);
                    }
                }
                assert forall|j: int| 0 <= j < i + 1 && shown_in_view(entries@[j], include_trashed)
                    implies exists|k: int| 0 <= k < order@.len() && #[trigger] order@[k] == j by {
                    if j == i {
                        assert(order@[p as int] == i);
                    } else {
                        let k = choose|k: int| 0 <= k < before.len() && before[k] == j;
                        if k < p {
                            assert(order@[k] == j);
                        } else {
                            assert(order@[k + 1] == j);
                        }
                    }
                }
                assert forall|k: int| 0 <= k < order@.len() implies (#[trigger] order@[k]) < i + 1 && shown_in_view(entries@[order@[k] as int], include_trashed) by {
                    if k < p {
                        assert(order@[k] == before[k]);
                    } else if k > p {
                        assert(order@[k] == before[k - 1]);
                    }
                }
            }
        }
        i = i + 1;
    }
    order
}

} // verus!
