//! The proxies as the engine reports them, and as the tray shows them.

use vstd::prelude::*;
use crate::text::{lines_of, text_option};

verus! {

/// A group of proxies as the engine reports it.
#[derive(Debug, PartialEq, Eq)]
pub struct ProxyGroup {
    pub name: String,
    /// The kind of the group, such as `Selector` or `Fallback`.
    pub kind: String,
    /// The member that is selected now, if any.
    pub now: Option<String>,
    /// The names of the members.
    pub all: Vec<String>,
}

pub struct ProxyGroupView {
    pub name: Seq<char>,
    pub kind: Seq<char>,
    pub now: Option<Seq<char>>,
    pub all: Seq<Seq<char>>,
}

impl View for ProxyGroup {
    type V = ProxyGroupView;

    open spec fn view(&self) -> ProxyGroupView {
        ProxyGroupView {
            name: self.name@,
            kind: self.kind@,
            now: text_option(self.now),
            all: lines_of(self.all@),
        }
    }
}

/// What the engine reports of its proxies.
#[derive(Debug, PartialEq, Eq)]
pub struct Proxies {
    /// The group of all proxies.
    pub global: ProxyGroup,
    /// The groups that the configuration defines, in its order.
    pub groups: Vec<ProxyGroup>,
    /// The names of the single proxies.
    pub proxies: Vec<String>,
}

pub struct ProxiesView {
    pub global: ProxyGroupView,
    pub groups: Seq<ProxyGroupView>,
    pub proxies: Seq<Seq<char>>,
}

pub open spec fn groups_of(groups: Seq<ProxyGroup>) -> Seq<ProxyGroupView> {
    Seq::new(groups.len(), |i: int| groups[i]@)
}

impl View for Proxies {
    type V = ProxiesView;

    open spec fn view(&self) -> ProxiesView {
        ProxiesView {
            global: self.global@,
            groups: groups_of(self.groups@),
            proxies: lines_of(self.proxies@),
        }
    }
}

/// A group as the tray shows it.
#[derive(Debug, PartialEq, Eq)]
pub struct TrayProxyItem {
    /// The member that is selected, if any.
    pub current: Option<String>,
    /// The names of the members.
    pub all: Vec<String>,
    /// The kind of the group.
    pub kind: String,
}

pub struct TrayProxyItemView {
    pub current: Option<Seq<char>>,
    pub all: Seq<Seq<char>>,
    pub kind: Seq<char>,
}

impl View for TrayProxyItem {
    type V = TrayProxyItemView;

    open spec fn view(&self) -> TrayProxyItemView {
        TrayProxyItemView {
            current: text_option(self.current),
            all: lines_of(self.all@),
            kind: self.kind@,
        }
    }
}

/// A copy of a list of names.
pub fn copy_names(names: &Vec<String>) -> (copy: Vec<String>)
    ensures
        lines_of(copy@) == lines_of(names@),
{
    let mut copy: Vec<String> = Vec::new();
    let mut i: usize = 0;
    while i < names.len()
        invariant
            i <= names.len(),
            copy.len() == i,
            forall|j: int| 0 <= j < i ==> copy@[j]@ == names@[j]@,
        decreases names.len() - i,
    {
        copy.push(names[i].clone());
        i += 1;
    }
    assert(lines_of(copy@) =~= lines_of(names@));
    copy
}

/// A copy of a name that may be missing.
pub fn copy_name(name: &Option<String>) -> (copy: Option<String>)
    ensures
        text_option(copy) == text_option(*name),
{
    match name {
        Some(name) => Some(name.clone()),
        None => None,
    }
}

impl Clone for TrayProxyItem {
    fn clone(&self) -> (copy: Self)
        ensures
            copy@ == self@,
    {
        TrayProxyItem {
            current: copy_name(&self.current),
            all: copy_names(&self.all),
            kind: self.kind.clone(),
        }
    }
}

} // verus!
