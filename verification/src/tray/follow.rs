//! How the tray follows the engine's proxies: the look that it keeps, what
//! it redraws when the proxies change, and how the marks of the selections
//! are moved.

use vstd::prelude::*;
use vstd::string::StringExecFns;
use crate::tray::diff::{
    actions_of, selections_named, spec_diff, try_diff_proxies, ProxySelectAction,
    SelectActionView, TrayUpdateType, TrayUpdateView,
};
use crate::tray::entries::{tray_entries, TrayProxies};
use crate::tray::item::Proxies;
use crate::tray::proxies::{spec_to_tray_proxies, to_tray_proxies, Entries};
use crate::tray::selection::{encodable, menu_id, spec_menu_id, TrayError};
use crate::tray::setup::ProxiesSelectorMode;

verus! {

/// How long the engine's proxies are left alone between two looks, in
/// seconds.
pub const POLL_INTERVAL_SECS: u64 = 10;

/// What runs in the background for the tray.
#[derive(Clone, Copy, Debug, PartialEq, Eq, Structural)]
pub enum BackgroundTask {
    /// The proxies are fetched from the engine, again and again.
    Poll { interval_secs: u64 },
    /// The tray is redrawn when the proxies have changed.
    Watch,
}

/// Says what has to run in the background for the tray: the fetching of the
/// proxies, and the redrawing.
pub fn setup_proxies() -> (tasks: Vec<BackgroundTask>)
    ensures
        tasks@ == seq![
            BackgroundTask::Poll { interval_secs: POLL_INTERVAL_SECS },
            BackgroundTask::Watch,
        ],
{
    let mut tasks: Vec<BackgroundTask> = Vec::new();
    tasks.push(BackgroundTask::Poll { interval_secs: POLL_INTERVAL_SECS });
    tasks.push(BackgroundTask::Watch);
    assert(tasks@ =~= seq![
        BackgroundTask::Poll { interval_secs: POLL_INTERVAL_SECS },
        BackgroundTask::Watch,
    ]);
    tasks
}

/// What a change of the proxies means for the tray.
#[derive(Debug, PartialEq, Eq)]
pub enum TrayRefresh {
    /// There is no application to draw for: nothing is done.
    NoHandle,
    /// The windows are told of the change; the selectors are hidden.
    Hidden,
    /// The windows are told of the change, and this is redrawn.
    Update(TrayUpdateType),
    /// The windows are told of the change; a selection has changed from or
    /// to no member, which the tray cannot show.
    Lost,
}

pub enum TrayRefreshView {
    NoHandle,
    Hidden,
    Update(TrayUpdateView),
    Lost,
}

impl View for TrayRefresh {
    type V = TrayRefreshView;

    open spec fn view(&self) -> TrayRefreshView {
        match self {
            TrayRefresh::NoHandle => TrayRefreshView::NoHandle,
            TrayRefresh::Hidden => TrayRefreshView::Hidden,
            TrayRefresh::Update(update) => TrayRefreshView::Update(update@),
            TrayRefresh::Lost => TrayRefreshView::Lost,
        }
    }
}

/// What a change of the proxies means for the tray, and the look that the
/// tray keeps afterwards: the new one where anything is redrawn, the old
/// one else.
pub open spec fn spec_refresh(
    kept: Entries,
    has_handle: bool,
    selector_mode: ProxiesSelectorMode,
    now: Entries,
) -> (Entries, TrayRefreshView) {
    if !has_handle {
        (kept, TrayRefreshView::NoHandle)
    } else if selector_mode == ProxiesSelectorMode::Hidden {
        (kept, TrayRefreshView::Hidden)
    } else if !selections_named(kept, now) {
        (kept, TrayRefreshView::Lost)
    } else {
        match spec_diff(kept, now) {
            TrayUpdateView::Unchanged => (kept, TrayRefreshView::Update(TrayUpdateView::Unchanged)),
            update => (now, TrayRefreshView::Update(update)),
        }
    }
}

/// Takes note that the engine's proxies have changed. `holder` is the look
/// that the tray keeps, `mode` the engine's mode.
pub fn proxies_updated_receiver(
    holder: &mut TrayProxies,
    has_handle: bool,
    selector_mode: ProxiesSelectorMode,
    mode: &str,
    proxies: &Proxies,
) -> (refresh: TrayRefresh)
    ensures
        (tray_entries(*final(holder)), refresh@) == spec_refresh(
            tray_entries(*old(holder)),
            has_handle,
            selector_mode,
            spec_to_tray_proxies(mode@, proxies@),
        ),
{
    if !has_handle {
        return TrayRefresh::NoHandle;
    }
    if selector_mode == ProxiesSelectorMode::Hidden {
        return TrayRefresh::Hidden;
    }
    let current = to_tray_proxies(mode, proxies);
    match try_diff_proxies(holder, &current) {
        None => TrayRefresh::Lost,
        Some(TrayUpdateType::Unchanged) => TrayRefresh::Update(TrayUpdateType::Unchanged),
        Some(update) => {
            *holder = current;
            TrayRefresh::Update(update)
        },
    }
}

/// The move of one mark: the identifiers and titles of the item that loses
/// it and of the item that gets it.
#[derive(Debug, PartialEq, Eq)]
pub struct Switch {
    pub from: String,
    pub from_title: String,
    pub to: String,
    pub to_title: String,
}

pub struct SwitchView {
    pub from: Seq<char>,
    pub from_title: Seq<char>,
    pub to: Seq<char>,
    pub to_title: Seq<char>,
}

impl View for Switch {
    type V = SwitchView;

    open spec fn view(&self) -> SwitchView {
        SwitchView {
            from: self.from@,
            from_title: self.from_title@,
            to: self.to@,
            to_title: self.to_title@,
        }
    }
}

pub open spec fn switches_of(switches: Seq<Switch>) -> Seq<SwitchView> {
    Seq::new(switches.len(), |i: int| switches[i]@)
}

/// The move of the mark for one change of selection.
pub open spec fn spec_switch(action: SelectActionView) -> SwitchView {
    SwitchView {
        from: spec_menu_id(action.0, action.1),
        from_title: action.1,
        to: spec_menu_id(action.0, action.2),
        to_title: action.2,
    }
}

/// Every name of the change is within the bound of the encoding.
pub open spec fn action_encodable(action: SelectActionView) -> bool {
    encodable(action.0) && encodable(action.1) && encodable(action.2)
}

/// The moves of the marks for the changes of selection, in their order; none
/// while an earlier update of the marks is still in progress.
pub open spec fn spec_switches(in_progress: bool, actions: Seq<SelectActionView>) -> Seq<SwitchView> {
    if in_progress {
        Seq::empty()
    } else {
        Seq::new(actions.len(), |i: int| spec_switch(actions[i]))
    }
}

pub open spec fn switches_view(switches: Result<Vec<Switch>, TrayError>) -> Result<
    Seq<SwitchView>,
    TrayError,
> {
    match switches {
        Ok(switches) => Ok(switches_of(switches@)),
        Err(e) => Err(e),
    }
}

/// Says which marks are to be moved for the changes of selection. It fails
/// where a name is too long to be encoded in an identifier, and only there.
pub fn update_selected_proxies(in_progress: bool, actions: &Vec<ProxySelectAction>) -> (switches:
    Result<Vec<Switch>, TrayError>)
    ensures
        switches_view(switches) == (if in_progress || forall|i: int|
            0 <= i < actions.len() ==> action_encodable(#[trigger] actions_of(actions@)[i]) {
            Ok(spec_switches(in_progress, actions_of(actions@)))
        } else {
            Err(TrayError::NameTooLong)
        }),
{
    let mut switches: Vec<Switch> = Vec::new();
    if in_progress {
        assert(switches_of(switches@) =~= Seq::<SwitchView>::empty());
        return Ok(switches);
    }
    let mut i: usize = 0;
    while i < actions.len()
        invariant
            i <= actions.len(),
            !in_progress,
            switches.len() == i,
            forall|j: int| 0 <= j < i ==> action_encodable(#[trigger] actions_of(actions@)[j]),
            forall|j: int|
                0 <= j < i ==> (#[trigger] switches@[j])@ == spec_switch(actions_of(actions@)[j]),
        decreases actions.len() - i,
    {
        let action = &actions[i];
        assert(actions_of(actions@)[i as int] == (action.0@, action.1@, action.2@));
        let from = match menu_id(action.0.as_str(), action.1.as_str()) {
            Some(id) => id,
            None => {
                assert(!action_encodable(actions_of(actions@)[i as int]));
                return Err(TrayError::NameTooLong);
            },
        };
        let to = match menu_id(action.0.as_str(), action.2.as_str()) {
            Some(id) => id,
            None => {
                assert(!action_encodable(actions_of(actions@)[i as int]));
                return Err(TrayError::NameTooLong);
            },
        };
        switches.push(
            Switch { from, from_title: action.1.clone(), to, to_title: action.2.clone() },
        );
        i += 1;
    }
    assert(switches_of(switches@) =~= spec_switches(false, actions_of(actions@)));
    Ok(switches)
}

/// What is found in the menu under an identifier.
#[derive(Clone, Copy, Debug, PartialEq, Eq)]
pub enum ItemLook {
    /// An item with a mark, and whether the mark is set, if that can be
    /// told.
    Check(Option<bool>),
    /// An item without a mark.
    Plain,
    /// Something that is no item of these two kinds.
    Other,
    /// Nothing.
    Missing,
}

/// What is done to an item.
#[derive(Debug, PartialEq, Eq)]
pub enum ItemOp {
    Nothing,
    /// The mark is set or taken away.
    SetChecked(bool),
    /// The title is written anew.
    SetText(String),
    /// It is reported that the item cannot carry a mark.
    WarnNotCheckable,
    /// It is reported that the item is missing.
    WarnNotFound,
}

pub enum ItemOpView {
    Nothing,
    SetChecked(bool),
    SetText(Seq<char>),
    WarnNotCheckable,
    WarnNotFound,
}

impl View for ItemOp {
    type V = ItemOpView;

    open spec fn view(&self) -> ItemOpView {
        match self {
            ItemOp::Nothing => ItemOpView::Nothing,
            ItemOp::SetChecked(checked) => ItemOpView::SetChecked(*checked),
            ItemOp::SetText(title) => ItemOpView::SetText(title@),
            ItemOp::WarnNotCheckable => ItemOpView::WarnNotCheckable,
            ItemOp::WarnNotFound => ItemOpView::WarnNotFound,
        }
    }
}

/// What is done to an item so that it shows whether its member is
/// selected. A mark is changed only where it is known to be wrong; an item
/// without a mark gets its title written anew.
pub open spec fn spec_mark_item(look: ItemLook, selected: bool, title: Seq<char>) -> ItemOpView {
    match look {
        ItemLook::Check(Some(checked)) => if checked != selected {
            ItemOpView::SetChecked(selected)
        } else {
            ItemOpView::Nothing
        },
        ItemLook::Check(None) => ItemOpView::Nothing,
        ItemLook::Plain => ItemOpView::SetText(title),
        ItemLook::Other => ItemOpView::WarnNotCheckable,
        ItemLook::Missing => ItemOpView::WarnNotFound,
    }
}

/// Says what is done to an item so that it shows whether its member is
/// selected.
pub fn mark_item(look: ItemLook, selected: bool, title: &str) -> (op: ItemOp)
    ensures
        op@ == spec_mark_item(look, selected, title@),
{
    match look {
        ItemLook::Check(Some(checked)) => if checked != selected {
            ItemOp::SetChecked(selected)
        } else {
            ItemOp::Nothing
        },
        ItemLook::Check(None) => ItemOp::Nothing,
        ItemLook::Plain => ItemOp::SetText(String::from_str(title)),
        ItemLook::Other => ItemOp::WarnNotCheckable,
        ItemLook::Missing => ItemOp::WarnNotFound,
    }
}

} // verus!
