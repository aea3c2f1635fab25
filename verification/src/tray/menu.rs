//! The menu of the proxy selectors: one submenu for each group, one item
//! for each member.

use vstd::prelude::*;
use vstd::string::StringExecFns;

use crate::tray::entries::{count_entries, entry_at, tray_entries, TrayProxies};
use crate::tray::item::{TrayProxyItem, TrayProxyItemView};
use crate::tray::proxies::{same_text, Entries};
use crate::tray::selection::{encodable, menu_id, spec_menu_id, TrayError};

verus! {

/// An item with a mark: the selector of one member of a group.
#[derive(Debug, PartialEq, Eq)]
pub struct CheckItem {
    pub id: String,
    pub title: String,
    /// Whether the member is the selected one.
    pub checked: bool,
    /// Whether the member can be selected by hand.
    pub enabled: bool,
}

pub struct CheckItemView {
    pub id: Seq<char>,
    pub title: Seq<char>,
    pub checked: bool,
    pub enabled: bool,
}

impl View for CheckItem {
    type V = CheckItemView;

    open spec fn view(&self) -> CheckItemView {
        CheckItemView {
            id: self.id@,
            title: self.title@,
            checked: self.checked,
            enabled: self.enabled,
        }
    }
}

pub open spec fn check_items_of(items: Seq<CheckItem>) -> Seq<CheckItemView> {
    Seq::new(items.len(), |i: int| items[i]@)
}

/// The menu of one group.
#[derive(Debug, PartialEq, Eq)]
pub struct Submenu {
    pub title: String,
    pub items: Vec<CheckItem>,
}

pub struct SubmenuView {
    pub title: Seq<char>,
    pub items: Seq<CheckItemView>,
}

impl View for Submenu {
    type V = SubmenuView;

    open spec fn view(&self) -> SubmenuView {
        SubmenuView { title: self.title@, items: check_items_of(self.items@) }
    }
}

/// An item without a mark.
#[derive(Debug, PartialEq, Eq)]
pub struct PlainItem {
    pub id: String,
    pub title: String,
    pub enabled: bool,
}

pub struct PlainItemView {
    pub id: Seq<char>,
    pub title: Seq<char>,
    pub enabled: bool,
}

impl View for PlainItem {
    type V = PlainItemView;

    open spec fn view(&self) -> PlainItemView {
        PlainItemView { id: self.id@, title: self.title@, enabled: self.enabled }
    }
}

/// One piece of the selectors' menu.
#[derive(Debug, PartialEq, Eq)]
pub enum MenuItemKind {
    MenuItem(PlainItem),
    Submenu(Submenu),
}

pub enum MenuItemKindView {
    MenuItem(PlainItemView),
    Submenu(SubmenuView),
}

impl View for MenuItemKind {
    type V = MenuItemKindView;

    open spec fn view(&self) -> MenuItemKindView {
        match self {
            MenuItemKind::MenuItem(item) => MenuItemKindView::MenuItem(item@),
            MenuItemKind::Submenu(menu) => MenuItemKindView::Submenu(menu@),
        }
    }
}

pub open spec fn kinds_of(items: Seq<MenuItemKind>) -> Seq<MenuItemKindView> {
    Seq::new(items.len(), |i: int| items[i]@)
}

/// The kinds of group whose selection can be changed by hand.
pub open spec fn selectable(kind: Seq<char>) -> bool {
    kind == "Selector"@ || kind == "Fallback"@
}

/// The item of one member of a group.
pub open spec fn spec_check_item(name: Seq<char>, group: TrayProxyItemView, member: Seq<char>) -> CheckItemView {
    CheckItemView {
        id: spec_menu_id(name, member),
        title: member,
        checked: group.current == Some(member),
        enabled: selectable(group.kind),
    }
}

/// The menu of one group: its name for the title, and the items of its
/// members in their order.
pub open spec fn spec_group_selector(name: Seq<char>, group: TrayProxyItemView) -> SubmenuView {
    SubmenuView {
        title: name,
        items: Seq::new(group.all.len(), |i: int| spec_check_item(name, group, group.all[i])),
    }
}

/// Every name of the group is within the bound of the encoding.
pub open spec fn group_encodable(name: Seq<char>, group: TrayProxyItemView) -> bool {
    group.all.len() > 0 ==> encodable(name) && forall|i: int|
        0 <= i < group.all.len() ==> encodable(#[trigger] group.all[i])
}

pub open spec fn submenu_view(menu: Result<Submenu, TrayError>) -> Result<SubmenuView, TrayError> {
    match menu {
        Ok(menu) => Ok(menu@),
        Err(e) => Err(e),
    }
}

/// Builds the menu of one group. It fails where a name is too long to be
/// encoded in an identifier, and only there.
pub fn generate_group_selector(group_name: &str, group: &TrayProxyItem) -> (menu: Result<
    Submenu,
    TrayError,
>)
    ensures
        submenu_view(menu) == (if group_encodable(group_name@, group@) {
            Ok(spec_group_selector(group_name@, group@))
        } else {
            Err(TrayError::NameTooLong)
        }),
{
    let enabled = same_text(group.kind.as_str(), "Selector") || same_text(
        group.kind.as_str(),
        "Fallback",
    );
    let mut items: Vec<CheckItem> = Vec::new();
    let mut i: usize = 0;
    while i < group.all.len()
        invariant
            i <= group.all.len(),
            enabled == selectable(group@.kind),
            items.len() == i,
            i > 0 ==> encodable(group_name@),
            forall|j: int| 0 <= j < i ==> encodable(#[trigger] group@.all[j]),
            forall|j: int|
                0 <= j < i ==> (#[trigger] items@[j])@ == spec_check_item(
                    group_name@,
                    group@,
                    group@.all[j],
                ),
        decreases group.all.len() - i,
    {
        let member = &group.all[i];
        assert(group@.all[i as int] == member@);
        let id = match menu_id(group_name, member.as_str()) {
            Some(id) => id,
            None => {
                return Err(TrayError::NameTooLong);
            },
        };
        let checked = match &group.current {
            Some(now) => *now == *member,
            None => false,
        };
        items.push(CheckItem { id, title: member.clone(), checked, enabled });
        i += 1;
    }
    let menu = Submenu { title: String::from_str(group_name), items };
    assert(menu@.items =~= spec_group_selector(group_name@, group@).items);
    Ok(menu)
}

/// The item that stands for an empty list of groups.
pub open spec fn no_proxies_item() -> MenuItemKindView {
    MenuItemKindView::MenuItem(
        PlainItemView { id: "no_proxies"@, title: "No Proxies"@, enabled: false },
    )
}

/// Every name of every group is within the bound of the encoding.
pub open spec fn all_encodable(entries: Entries) -> bool {
    forall|i: int| 0 <= i < entries.len() ==> group_encodable(
        (#[trigger] entries[i]).0,
        entries[i].1,
    )
}

/// The pieces of the selectors' menu: the menus of the groups in their
/// order, or the one item that says that there are none.
pub open spec fn spec_selectors(entries: Entries) -> Seq<MenuItemKindView> {
    if entries.len() == 0 {
        seq![no_proxies_item()]
    } else {
        Seq::new(
            entries.len(),
            |i: int| MenuItemKindView::Submenu(spec_group_selector(entries[i].0, entries[i].1)),
        )
    }
}

pub open spec fn selectors_view(items: Result<Vec<MenuItemKind>, TrayError>) -> Result<
    Seq<MenuItemKindView>,
    TrayError,
> {
    match items {
        Ok(items) => Ok(kinds_of(items@)),
        Err(e) => Err(e),
    }
}

/// Builds the pieces of the selectors' menu. It fails where a name is too
/// long to be encoded in an identifier, and only there.
pub fn generate_selectors(proxies: &TrayProxies) -> (items: Result<Vec<MenuItemKind>, TrayError>)
    ensures
        selectors_view(items) == (if all_encodable(tray_entries(*proxies)) {
            Ok(spec_selectors(tray_entries(*proxies)))
        } else {
            Err(TrayError::NameTooLong)
        }),
{
    let mut items: Vec<MenuItemKind> = Vec::new();
    let count = count_entries(proxies);
    let ghost entries = tray_entries(*proxies);
    if count == 0 {
        items.push(
            MenuItemKind::MenuItem(
                PlainItem {
                    id: String::from_str("no_proxies"),
                    title: String::from_str("No Proxies"),
                    enabled: false,
                },
            ),
        );
        assert(kinds_of(items@) =~= spec_selectors(entries));
        return Ok(items);
    }
    let mut i: usize = 0;
    while i < count
        invariant
            i <= count,
            count == entries.len(),
            entries == tray_entries(*proxies),
            items.len() == i,
            forall|j: int| 0 <= j < i ==> group_encodable((#[trigger] entries[j]).0, entries[j].1),
            forall|j: int|
                0 <= j < i ==> (#[trigger] items@[j])@ == MenuItemKindView::Submenu(
                    spec_group_selector(entries[j].0, entries[j].1),
                ),
        decreases count - i,
    {
        if let Some(entry) = entry_at(proxies, i) {
            let group_menu = match generate_group_selector(entry.0.as_str(), entry.1) {
                Ok(menu) => menu,
                Err(e) => {
                    assert(!group_encodable(entries[i as int].0, entries[i as int].1));
                    return Err(e);
                },
            };
            items.push(MenuItemKind::Submenu(group_menu));
        }
        i += 1;
    }
    assert(kinds_of(items@) =~= spec_selectors(entries));
    Ok(items)
}

} // verus!
