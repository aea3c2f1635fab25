//! From the engine's proxies to the groups of the tray, and from two looks
//! at the groups to what has to be redrawn.

use vstd::prelude::*;
use vstd::string::StringExecFns;
use crate::text::lines_of;
use crate::tray::entries::{new_entries, put, put_entry, tray_entries, TrayProxies};
use crate::tray::item::{copy_name, copy_names, groups_of, Proxies, ProxiesView, ProxyGroupView, TrayProxyItem, TrayProxyItemView};
use crate::text::text_option;

verus! {

/// The entries of a map of groups.
pub type Entries = Seq<(Seq<char>, TrayProxyItemView)>;

/// Whether two texts are the same.
pub fn same_text(a: &str, b: &str) -> (same: bool)
    ensures
        same == (a@ == b@),
{
    String::from_str(a) == String::from_str(b)
}

/// Whether two lists of names are the same.
pub fn same_names(a: &Vec<String>, b: &Vec<String>) -> (same: bool)
    ensures
        same == (lines_of(a@) == lines_of(b@)),
{
    if a.len() != b.len() {
        assert(lines_of(a@).len() != lines_of(b@).len());
        return false;
    }
    let mut i: usize = 0;
    while i < a.len()
        invariant
            i <= a.len(),
            a.len() == b.len(),
            forall|j: int| 0 <= j < i ==> a@[j]@ == b@[j]@,
        decreases a.len() - i,
    {
        if a[i] != b[i] {
            assert(lines_of(a@)[i as int] != lines_of(b@)[i as int]);
            return false;
        }
        i += 1;
    }
    assert(lines_of(a@) =~= lines_of(b@));
    true
}

/// Whether two names that may be missing are the same.
pub fn same_name(a: &Option<String>, b: &Option<String>) -> (same: bool)
    ensures
        same == (text_option(*a) == text_option(*b)),
{
    match a {
        Some(a) => match b {
            Some(b) => *a == *b,
            None => false,
        },
        None => b.is_none(),
    }
}

/// The modes of the engine in which the tray shows groups.
pub open spec fn shown_mode(mode: Seq<char>) -> bool {
    mode == "global"@ || mode == "rule"@ || mode == "script"@
}

/// A group as the tray shows it.
pub open spec fn tray_item_of(group: ProxyGroupView) -> TrayProxyItemView {
    TrayProxyItemView { current: group.now, all: group.all, kind: group.kind }
}

/// The group of all proxies as the tray shows it: a selector.
pub open spec fn global_item(global: ProxyGroupView) -> TrayProxyItemView {
    TrayProxyItemView { current: global.now, all: global.all, kind: "Selector"@ }
}

/// The entries after the groups were put in, one after the other.
pub open spec fn put_groups(entries: Entries, groups: Seq<ProxyGroupView>) -> Entries
    decreases groups.len(),
{
    if groups.len() == 0 {
        entries
    } else {
        put(put_groups(entries, groups.drop_last()), groups.last().name, tray_item_of(groups.last()))
    }
}

/// The groups that the tray shows. In a mode in which it shows any, the
/// group of all proxies comes first, under the name `global`, where the mode
/// is the global one or there is no single proxy; then the groups of the
/// configuration in their order. A name that comes again keeps its place
/// and shows the later group.
pub open spec fn spec_to_tray_proxies(mode: Seq<char>, raw: ProxiesView) -> Entries {
    if !shown_mode(mode) {
        Seq::empty()
    } else if mode == "global"@ || raw.proxies.len() == 0 {
        put_groups(put(Seq::empty(), "global"@, global_item(raw.global)), raw.groups)
    } else {
        put_groups(Seq::empty(), raw.groups)
    }
}

/// Turns the engine's proxies into the groups of the tray.
pub fn to_tray_proxies(mode: &str, raw_proxies: &Proxies) -> (tray_proxies: TrayProxies)
    ensures
        tray_entries(tray_proxies) == spec_to_tray_proxies(mode@, raw_proxies@),
{
    let mut tray_proxies = new_entries();
    let global_mode = same_text(mode, "global");
    if !(global_mode || same_text(mode, "rule") || same_text(mode, "script")) {
        return tray_proxies;
    }
    if global_mode || raw_proxies.proxies.len() == 0 {
        let global = TrayProxyItem {
            current: copy_name(&raw_proxies.global.now),
            all: copy_names(&raw_proxies.global.all),
            kind: String::from_str("Selector"),
        };
        put_entry(&mut tray_proxies, String::from_str("global"), global);
    }
    let ghost first = tray_entries(tray_proxies);
    let ghost groups = groups_of(raw_proxies.groups@);
    let mut i: usize = 0;
    while i < raw_proxies.groups.len()
        invariant
            i <= raw_proxies.groups.len(),
            groups == groups_of(raw_proxies.groups@),
            tray_entries(tray_proxies) == put_groups(first, groups.take(i as int)),
        decreases raw_proxies.groups.len() - i,
    {
        let raw_group = &raw_proxies.groups[i];
        let group = TrayProxyItem {
            current: copy_name(&raw_group.now),
            all: copy_names(&raw_group.all),
            kind: raw_group.kind.clone(),
        };
        put_entry(&mut tray_proxies, raw_group.name.clone(), group);
        proof {
            assert(groups.take(i + 1).drop_last() =~= groups.take(i as int));
            assert(groups.take(i + 1).last() == raw_group@);
        }
        i += 1;
    }
    proof {
        assert(groups.take(raw_proxies.groups.len() as int) =~= groups);
    }
    tray_proxies
}

} // verus!
