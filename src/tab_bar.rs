//! The tab bar: three selectable controls, one per tab, in a fixed order.
use vstd::prelude::*;
use crate::tabs::{MainTab, label_of};

verus! {

/// One selectable control of the tab bar.
#[derive(Clone, Copy, Debug, PartialEq, Eq)]
pub struct TabControl {
    /// The tab that activating this control hands to the change callback.
    pub tab: MainTab,
    /// The fixed caption shown on the control.
    pub label: &'static str,
    /// Whether the control is shown as the selected tab.
    pub selected: bool,
}

/// The order of the controls, left to right.
pub open spec fn bar_order() -> Seq<MainTab> {
    seq![MainTab::SocialFeed, MainTab::MapView, MainTab::Account]
}

/// `bar` is the tab bar drawn while `active` is the active tab: one control per
/// tab in the fixed order, each with its caption, selected exactly when its tab
/// equals `active`.
pub open spec fn is_tab_bar(bar: Seq<TabControl>, active: MainTab) -> bool {
    &&& bar.len() == bar_order().len()
    &&& forall|i: int|
        #![trigger bar[i]]
        0 <= i < bar.len() ==> {
            &&& bar[i].tab == bar_order()[i]
            &&& bar[i].label@ == label_of(bar[i].tab)
            &&& bar[i].selected == (bar[i].tab == active)
        }
}

/// The control of tab `t`, drawn while `active` is the active tab.
pub fn tab_control(t: MainTab, active: MainTab) -> (c: TabControl)
    ensures
        c.tab == t,
        c.label@ == label_of(t),
        c.selected == (t == active),
{
    TabControl { tab: t, label: t.label(), selected: t == active }
}

/// The controls of the tab bar while `active_tab` is the active tab.
#[allow(non_snake_case)]
pub fn BottomTabBar(active_tab: MainTab) -> (bar: Vec<TabControl>)
    ensures
        is_tab_bar(bar@, active_tab),
{
    let bar = vec![
        tab_control(MainTab::SocialFeed, active_tab),
        tab_control(MainTab::MapView, active_tab),
        tab_control(MainTab::Account, active_tab),
    ];
    bar
}

impl TabControl {
    /// What activating this control hands to the change callback: its own tab.
    pub fn activate(&self) -> (t: MainTab)
        ensures
            t == self.tab,
    {
        self.tab
    }
}

/// In the tab bar drawn for any active tab, exactly one control is selected,
/// and it is the control of the active tab.
pub proof fn lemma_exactly_one_selected(bar: Seq<TabControl>, active: MainTab)
    requires
        is_tab_bar(bar, active),
    ensures
        exists|i: int| 0 <= i < bar.len() && #[trigger] bar[i].selected && bar[i].tab == active,
        forall|i: int, j: int|
            0 <= i < bar.len() && 0 <= j < bar.len() && #[trigger] bar[i].selected
                && #[trigger] bar[j].selected ==> i == j,
        forall|i: int| 0 <= i < bar.len() && #[trigger] bar[i].selected ==> bar[i].tab == active,
{
    let k: int = match active {
        MainTab::SocialFeed => 0,
        MainTab::MapView => 1,
        MainTab::Account => 2,
    };
    assert(bar[k].tab == bar_order()[k]);
    assert forall|i: int, j: int|
        0 <= i < bar.len() && 0 <= j < bar.len() && #[trigger] bar[i].selected
            && #[trigger] bar[j].selected implies i == j by {
        assert(bar[i].tab == bar_order()[i]);
        assert(bar[j].tab == bar_order()[j]);
    }
    assert forall|i: int| 0 <= i < bar.len() && #[trigger] bar[i].selected implies bar[i].tab
        == active by {
        assert(bar[i].tab == bar_order()[i]);
    }
}

} // verus!
