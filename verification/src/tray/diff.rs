//! What has changed between two looks at the groups of the tray.

use vstd::prelude::*;
use crate::tray::entries::{count_entries, entry_at, tray_entries, TrayProxies};

use crate::tray::proxies::{same_name, same_names, Entries};

verus! {

/// The change of a group's selection: the group, the member that was
/// selected, and the one that is.
pub type ProxySelectAction = (String, String, String);

/// A change of selection by its texts.
pub type SelectActionView = (Seq<char>, Seq<char>, Seq<char>);

pub open spec fn actions_of(actions: Seq<ProxySelectAction>) -> Seq<SelectActionView> {
    Seq::new(actions.len(), |i: int| (actions[i].0@, actions[i].1@, actions[i].2@))
}

/// What of the tray has to be redrawn.
#[derive(Debug, PartialEq, Eq)]
pub enum TrayUpdateType {
    /// Nothing.
    Unchanged,
    /// All of it.
    Full,
    /// The marks of the selections that changed.
    Part(Vec<ProxySelectAction>),
}

pub enum TrayUpdateView {
    Unchanged,
    Full,
    Part(Seq<SelectActionView>),
}

impl View for TrayUpdateType {
    type V = TrayUpdateView;

    open spec fn view(&self) -> TrayUpdateView {
        match self {
            TrayUpdateType::Unchanged => TrayUpdateView::Unchanged,
            TrayUpdateType::Full => TrayUpdateView::Full,
            TrayUpdateType::Part(actions) => TrayUpdateView::Part(actions_of(actions@)),
        }
    }
}

/// The two looks show groups of the same names in the same order.
pub open spec fn same_groups(old_entries: Entries, new_entries: Entries) -> bool {
    &&& old_entries.len() == new_entries.len()
    &&& forall|i: int| 0 <= i < old_entries.len() ==> (#[trigger] old_entries[i]).0 == new_entries[i].0
}

/// The first `n` groups have the same members in both looks.
pub open spec fn same_members(old_entries: Entries, new_entries: Entries, n: int) -> bool {
    forall|i: int| 0 <= i < n ==> (#[trigger] old_entries[i]).1.all == new_entries[i].1.all
}

/// The selection of the group at a place has changed.
pub open spec fn reselected(old_entries: Entries, new_entries: Entries, i: int) -> bool {
    old_entries[i].1.current != new_entries[i].1.current
}

/// The changes of selection among the first `n` groups, in their order.
pub open spec fn reselections(old_entries: Entries, new_entries: Entries, n: int) -> Seq<
    SelectActionView,
>
    decreases n,
{
    if n <= 0 {
        Seq::empty()
    } else if reselected(old_entries, new_entries, n - 1) {
        reselections(old_entries, new_entries, n - 1).push(
            (
                new_entries[n - 1].0,
                old_entries[n - 1].1.current->0,
                new_entries[n - 1].1.current->0,
            ),
        )
    } else {
        reselections(old_entries, new_entries, n - 1)
    }
}

/// What has to be redrawn: all of it where the groups or the members of a
/// group are not the same; else the selections that changed, if any.
pub open spec fn spec_diff(old_entries: Entries, new_entries: Entries) -> TrayUpdateView {
    if !same_groups(old_entries, new_entries) || !same_members(
        old_entries,
        new_entries,
        old_entries.len() as int,
    ) {
        TrayUpdateView::Full
    } else if reselections(old_entries, new_entries, old_entries.len() as int).len() == 0 {
        TrayUpdateView::Unchanged
    } else {
        TrayUpdateView::Part(reselections(old_entries, new_entries, old_entries.len() as int))
    }
}

/// Every change of selection that the comparison reaches goes from a
/// member to a member. The comparison goes through the groups in their
/// order and ends at the first whose members differ; it reaches no group at
/// all where the groups are not the same.
pub open spec fn selections_named(old_entries: Entries, new_entries: Entries) -> bool {
    same_groups(old_entries, new_entries) ==> forall|i: int|
        0 <= i < old_entries.len() && same_members(old_entries, new_entries, i + 1)
            && #[trigger] reselected(old_entries, new_entries, i) ==> old_entries[i].1.current is Some
            && new_entries[i].1.current is Some
}

pub open spec fn update_view(update: Option<TrayUpdateType>) -> Option<TrayUpdateView> {
    match update {
        Some(update) => Some(update@),
        None => None,
    }
}

/// Whether the two looks show groups of the same names in the same order.
fn groups_match(old_proxies: &TrayProxies, new_proxies: &TrayProxies) -> (same: bool)
    ensures
        same == same_groups(tray_entries(*old_proxies), tray_entries(*new_proxies)),
{
    let count = count_entries(old_proxies);
    if count != count_entries(new_proxies) {
        return false;
    }
    let ghost old_entries = tray_entries(*old_proxies);
    let ghost new_entries = tray_entries(*new_proxies);
    let mut i: usize = 0;
    while i < count
        invariant
            i <= count,
            count == old_entries.len(),
            count == new_entries.len(),
            old_entries == tray_entries(*old_proxies),
            new_entries == tray_entries(*new_proxies),
            forall|j: int| 0 <= j < i ==> (#[trigger] old_entries[j]).0 == new_entries[j].0,
        decreases count - i,
    {
        if let (Some(old_entry), Some(new_entry)) = (entry_at(old_proxies, i), entry_at(new_proxies, i)) {
            if *old_entry.0 != *new_entry.0 {
                assert(old_entries[i as int].0 != new_entries[i as int].0);
                return false;
            }
        }
        i += 1;
    }
    true
}

/// Compares two looks at the groups. Gives nothing where a change of
/// selection that the comparison reaches has no member to go from or to.
pub fn try_diff_proxies(old_proxies: &TrayProxies, new_proxies: &TrayProxies) -> (update: Option<
    TrayUpdateType,
>)
    ensures
        update_view(update) == (if selections_named(
            tray_entries(*old_proxies),
            tray_entries(*new_proxies),
        ) {
            Some(spec_diff(tray_entries(*old_proxies), tray_entries(*new_proxies)))
        } else {
            None
        }),
{
    if !groups_match(old_proxies, new_proxies) {
        return Some(TrayUpdateType::Full);
    }
    let ghost old_entries = tray_entries(*old_proxies);
    let ghost new_entries = tray_entries(*new_proxies);
    let count = count_entries(old_proxies);
    let mut actions: Vec<ProxySelectAction> = Vec::new();
    let mut i: usize = 0;
    proof {
        assert(actions_of(actions@) =~= reselections(old_entries, new_entries, 0));
    }
    while i < count
        invariant
            i <= count,
            count == old_entries.len(),
            old_entries == tray_entries(*old_proxies),
            new_entries == tray_entries(*new_proxies),
            same_groups(old_entries, new_entries),
            same_members(old_entries, new_entries, i as int),
            actions_of(actions@) == reselections(old_entries, new_entries, i as int),
            forall|j: int|
                0 <= j < i && #[trigger] reselected(old_entries, new_entries, j)
                    ==> old_entries[j].1.current is Some && new_entries[j].1.current is Some,
        decreases count - i,
    {
        if let (Some(old_entry), Some(new_entry)) = (entry_at(old_proxies, i), entry_at(new_proxies, i)) {
            let old_item = old_entry.1;
            let item = new_entry.1;
            if !same_names(&item.all, &old_item.all) {
                proof {
                    assert(old_entries[i as int].1.all != new_entries[i as int].1.all);
                    assert(!same_members(old_entries, new_entries, count as int));
                    assert forall|k: int|
                        0 <= k < old_entries.len() && same_members(
                            old_entries,
                            new_entries,
                            k + 1,
                        ) && #[trigger] reselected(old_entries, new_entries, k) implies old_entries[k].1.current is Some
                        && new_entries[k].1.current is Some by {
                        if k >= i {
                            assert(old_entries[i as int].1.all == new_entries[i as int].1.all);
                        }
                    }
                }
                return Some(TrayUpdateType::Full);
            }
            proof {
                assert(same_members(old_entries, new_entries, i + 1));
            }
            if !same_name(&item.current, &old_item.current) {
                assert(reselected(old_entries, new_entries, i as int));
                match (&old_item.current, &item.current) {
                    (Some(from), Some(to)) => {
                        let ghost before = actions@;
                        actions.push((new_entry.0.clone(), from.clone(), to.clone()));
                        proof {
                            assert(actions_of(actions@) =~= actions_of(before).push(
                                (new_entries[i as int].0, from@, to@),
                            ));
                        }
                    },
                    _ => {
                        return None;
                    },
                }
            }
        }
        i += 1;
    }
    if actions.len() == 0 {
        Some(TrayUpdateType::Unchanged)
    } else {
        Some(TrayUpdateType::Part(actions))
    }
}

/// Compares two looks at the groups, and says what has to be redrawn.
pub fn diff_proxies(old_proxies: &TrayProxies, new_proxies: &TrayProxies) -> (update: TrayUpdateType)
    requires
        selections_named(tray_entries(*old_proxies), tray_entries(*new_proxies)),
    ensures
        update@ == spec_diff(tray_entries(*old_proxies), tray_entries(*new_proxies)),
{
    match try_diff_proxies(old_proxies, new_proxies) {
        Some(update) => update,
        None => TrayUpdateType::Full,
    }
}

} // verus!
