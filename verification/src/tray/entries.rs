//! The groups of the tray in their order: an insertion-ordered map from the
//! name of a group to the group.

use vstd::prelude::*;
use indexmap::IndexMap;
use crate::tray::item::{TrayProxyItem, TrayProxyItemView};

verus! {

/// The insertion-ordered map of the `indexmap` crate. Nothing of its inside
/// is known here.
#[verifier::external_type_specification]
#[verifier::external_body]
#[verifier::reject_recursive_types(K)]
#[verifier::reject_recursive_types(V)]
#[verifier::reject_recursive_types(S)]
pub struct ExIndexMap<K, V, S>(IndexMap<K, V, S>);

/// The groups of the tray, by name, in the order in which they were first
/// put in.
pub type TrayProxies = IndexMap<String, TrayProxyItem>;

/// A name and its group, as they stand in the map.
pub type Entry<'a> = (&'a String, &'a TrayProxyItem);

/// What a map of groups holds: the names with their groups, in the map's
/// order.
pub uninterp spec fn tray_entries(map: IndexMap<String, TrayProxyItem>) -> Seq<
    (Seq<char>, TrayProxyItemView),
>;

/// The place of a name among the entries, if it is there.
pub open spec fn position(entries: Seq<(Seq<char>, TrayProxyItemView)>, name: Seq<char>) -> Option<
    int,
> {
    if exists|i: int| 0 <= i < entries.len() && (#[trigger] entries[i]).0 == name {
        Some(choose|i: int| 0 <= i < entries.len() && (#[trigger] entries[i]).0 == name)
    } else {
        None
    }
}

/// The entries after a group was put in under a name: a name that is there
/// keeps its place and gets the new group; a new name comes last.
pub open spec fn put(
    entries: Seq<(Seq<char>, TrayProxyItemView)>,
    name: Seq<char>,
    item: TrayProxyItemView,
) -> Seq<(Seq<char>, TrayProxyItemView)> {
    match position(entries, name) {
        Some(i) => entries.update(i, (name, item)),
        None => entries.push((name, item)),
    }
}

/// `IndexMap::new`: a map that holds nothing.
#[verifier::external_body]
pub(crate) fn new_entries() -> (map: TrayProxies)
    ensures
        tray_entries(map) == Seq::<(Seq<char>, TrayProxyItemView)>::empty(),
{
    IndexMap::new()
}

/// `IndexMap::insert`: where an equal key is in the map it keeps its place
/// and its value is replaced; else the pair is put in last.
#[verifier::external_body]
pub(crate) fn put_entry(map: &mut TrayProxies, name: String, item: TrayProxyItem)
    ensures
        tray_entries(*final(map)) == put(tray_entries(*old(map)), name@, item@),
{
    map.insert(name, item);
}

/// `IndexMap::len`: the number of pairs in the map.
#[verifier::external_body]
pub(crate) fn count_entries(map: &TrayProxies) -> (count: usize)
    ensures
        count == tray_entries(*map).len(),
{
    map.len()
}

/// The entry at a place, for the places below the length.
pub open spec fn entry_of(entries: Seq<(Seq<char>, TrayProxyItemView)>, index: int) -> Option<
    (Seq<char>, TrayProxyItemView),
> {
    if 0 <= index < entries.len() {
        Some(entries[index])
    } else {
        None
    }
}

pub open spec fn entry_view(entry: Option<Entry<'_>>) -> Option<(Seq<char>, TrayProxyItemView)> {
    match entry {
        Some(pair) => Some((pair.0@, pair.1@)),
        None => None,
    }
}

/// `IndexMap::get_index`: the pair at a place in the map's order, for the
/// places below the map's length, and nothing for the others.
#[verifier::external_body]
pub(crate) fn entry_at<'a>(map: &'a TrayProxies, index: usize) -> (entry: Option<Entry<'a>>)
    ensures
        entry_view(entry) == entry_of(tray_entries(*map), index as int),
{
    map.get_index(index)
}

} // verus!
