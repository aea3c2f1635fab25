//! The selectors in the tray's menu, and how the tray follows the engine's
//! proxies.

use vstd::prelude::*;
use vstd::string::StringExecFns;

use crate::tray::item::Proxies;
use crate::tray::menu::{
    all_encodable, generate_selectors, kinds_of, spec_selectors, MenuItemKind, MenuItemKindView,
};
use crate::tray::proxies::{spec_to_tray_proxies, to_tray_proxies, Entries};
use crate::tray::selection::TrayError;

verus! {

/// Where the selectors stand in the tray's menu.
#[derive(Clone, Copy, Debug, PartialEq, Eq, Structural)]
pub enum ProxiesSelectorMode {
    /// Nowhere.
    Hidden,
    /// In the menu itself, after a separator.
    Normal,
    /// In a submenu of their own.
    Submenu,
}

/// One entry of the tray's menu.
#[derive(Debug, PartialEq, Eq)]
pub enum MenuEntry {
    Separator,
    Item(MenuItemKind),
    /// A submenu that holds pieces of the selectors' menu.
    Folder { title: String, items: Vec<MenuItemKind> },
}

pub enum MenuEntryView {
    Separator,
    Item(MenuItemKindView),
    Folder { title: Seq<char>, items: Seq<MenuItemKindView> },
}

impl View for MenuEntry {
    type V = MenuEntryView;

    open spec fn view(&self) -> MenuEntryView {
        match self {
            MenuEntry::Separator => MenuEntryView::Separator,
            MenuEntry::Item(item) => MenuEntryView::Item(item@),
            MenuEntry::Folder { title, items } => MenuEntryView::Folder {
                title: title@,
                items: kinds_of(items@),
            },
        }
    }
}

pub open spec fn entries_of(entries: Seq<MenuEntry>) -> Seq<MenuEntryView> {
    Seq::new(entries.len(), |i: int| entries[i]@)
}

/// The tray's menu while it is built.
#[derive(Debug, PartialEq, Eq)]
pub struct MenuBuilder {
    pub entries: Vec<MenuEntry>,
}

impl View for MenuBuilder {
    type V = Seq<MenuEntryView>;

    open spec fn view(&self) -> Seq<MenuEntryView> {
        entries_of(self.entries@)
    }
}

/// The pieces, each as an entry of its own.
pub open spec fn as_items(pieces: Seq<MenuItemKindView>) -> Seq<MenuEntryView> {
    Seq::new(pieces.len(), |i: int| MenuEntryView::Item(pieces[i]))
}

/// The menu with the selectors: unchanged where they are hidden; with a
/// separator and then the pieces where they stand in the menu itself; with
/// one submenu of the given title that holds the pieces otherwise.
pub open spec fn spec_setup_tray(
    menu: Seq<MenuEntryView>,
    selector_mode: ProxiesSelectorMode,
    title: Seq<char>,
    entries: Entries,
) -> Seq<MenuEntryView> {
    match selector_mode {
        ProxiesSelectorMode::Hidden => menu,
        ProxiesSelectorMode::Normal => menu.push(MenuEntryView::Separator) + as_items(
            spec_selectors(entries),
        ),
        ProxiesSelectorMode::Submenu => menu.push(
            MenuEntryView::Folder { title, items: spec_selectors(entries) },
        ),
    }
}

pub open spec fn menu_view(menu: Result<MenuBuilder, TrayError>) -> Result<Seq<MenuEntryView>, TrayError> {
    match menu {
        Ok(menu) => Ok(menu@),
        Err(e) => Err(e),
    }
}

/// Puts the selectors into the tray's menu. `title` is the title of the
/// submenu, `mode` the engine's mode. It fails where the selectors are shown
/// and a name is too long to be encoded in an identifier, and only there.
pub fn setup_tray(
    menu: MenuBuilder,
    selector_mode: ProxiesSelectorMode,
    title: &str,
    mode: &str,
    proxies: &Proxies,
) -> (built: Result<MenuBuilder, TrayError>)
    ensures
        menu_view(built) == (if selector_mode != ProxiesSelectorMode::Hidden && !all_encodable(
            spec_to_tray_proxies(mode@, proxies@),
        ) {
            Err(TrayError::NameTooLong)
        } else {
            Ok(spec_setup_tray(menu@, selector_mode, title@, spec_to_tray_proxies(mode@, proxies@)))
        }),
{
    let mut menu = menu;
    if selector_mode == ProxiesSelectorMode::Hidden {
        return Ok(menu);
    }
    let tray_proxies = to_tray_proxies(mode, proxies);
    let items = match generate_selectors(&tray_proxies) {
        Ok(items) => items,
        Err(e) => {
            return Err(e);
        },
    };
    let ghost before = menu@;
    let ghost pieces = kinds_of(items@);
    match selector_mode {
        ProxiesSelectorMode::Normal => {
            menu.entries.push(MenuEntry::Separator);
            for item in iter: items
                invariant
                    kinds_of(iter.seq()) == pieces,
                    menu@ == before.push(MenuEntryView::Separator) + as_items(
                        pieces.take(iter.index() as int),
                    ),
            {
                let ghost so_far = menu@;
                menu.entries.push(MenuEntry::Item(item));
                proof {
                    assert(menu@ =~= so_far.push(MenuEntryView::Item(pieces[iter.index() as int])));
                    assert(as_items(pieces.take(iter.index() + 1)) =~= as_items(
                        pieces.take(iter.index() as int),
                    ).push(MenuEntryView::Item(pieces[iter.index() as int])));
                }
            }
            proof {
                assert(pieces.take(pieces.len() as int) =~= pieces);
            }
            Ok(menu)
        },
        _ => {
            menu.entries.push(MenuEntry::Folder { title: String::from_str(title), items });
            proof {
                assert(menu@ =~= before.push(
                    MenuEntryView::Folder { title: title@, items: pieces },
                ));
            }
            Ok(menu)
        },
    }
}

/// A menu that can take the proxy selectors.
pub trait SystemTrayMenuProxiesExt: Sized {
    /// Puts the selectors into the menu.
    fn setup_proxies(
        self,
        selector_mode: ProxiesSelectorMode,
        title: &str,
        mode: &str,
        proxies: &Proxies,
    ) -> Result<Self, TrayError>;
}

impl SystemTrayMenuProxiesExt for MenuBuilder {
    fn setup_proxies(
        self,
        selector_mode: ProxiesSelectorMode,
        title: &str,
        mode: &str,
        proxies: &Proxies,
    ) -> (built: Result<Self, TrayError>)
        ensures
            menu_view(built) == (if selector_mode != ProxiesSelectorMode::Hidden
                && !all_encodable(spec_to_tray_proxies(mode@, proxies@)) {
                Err(TrayError::NameTooLong)
            } else {
                Ok(
                    spec_setup_tray(
                        self@,
                        selector_mode,
                        title@,
                        spec_to_tray_proxies(mode@, proxies@),
                    ),
                )
            }),
    {
        setup_tray(self, selector_mode, title, mode, proxies)
    }
}

} // verus!
