//! The shell that hosts the content slot and the tab bar: it owns the active
//! tab and keeps it in step with the router's current route.
use vstd::prelude::*;
use crate::tab_bar::{BottomTabBar, TabControl, is_tab_bar};
use crate::tabs::{MainTab, Route, route_of_tab, tab_of_route};

verus! {

/// What the shell is told: the router's current route changed (also on first
/// mount), or a control of the tab bar was activated.
#[derive(Clone, Copy, Debug, PartialEq, Eq, Structural)]
pub enum ShellEvent {
    RouteChanged(Route),
    TabClicked(MainTab),
}

/// The shell's one piece of state.
#[derive(Clone, Copy, Debug, PartialEq, Eq, Structural)]
pub struct TabLayout {
    /// The tab highlighted in the tab bar.
    pub active_tab: MainTab,
}

/// The active tab after `e` arrives while `active` is the active tab.
pub open spec fn next_active(active: MainTab, e: ShellEvent) -> MainTab {
    match e {
        ShellEvent::RouteChanged(r) => tab_of_route(r),
        ShellEvent::TabClicked(t) => t,
    }
}

/// The navigation request the shell issues on `e`, after it has updated the
/// active tab: a click asks for the clicked tab's route; a route change asks
/// for nothing.
pub open spec fn navigation_of(e: ShellEvent) -> Option<Route> {
    match e {
        ShellEvent::RouteChanged(_) => None,
        ShellEvent::TabClicked(t) => Some(route_of_tab(t)),
    }
}

/// A new shell, with the Map View tab active until the first route change.
#[allow(non_snake_case)]
pub fn BottomTabLayout() -> (s: TabLayout)
    ensures
        s.active_tab == MainTab::MapView,
{
    TabLayout { active_tab: MainTab::MapView }
}

impl TabLayout {
    /// Takes the tab of route `r` as the active tab, whatever was active before.
    pub fn route_changed(&mut self, r: Route)
        ensures
            final(self).active_tab == tab_of_route(r),
    {
        self.active_tab = MainTab::from_route(r);
    }

    /// Takes the clicked tab as the active tab at once, and returns the route
    /// that the router is then asked to navigate to.
    pub fn tab_clicked(&mut self, tab: MainTab) -> (nav: Route)
        ensures
            final(self).active_tab == tab,
            nav == route_of_tab(tab),
    {
        self.active_tab = tab;
        tab.route()
    }

    /// Applies one event, and returns the navigation request to issue after the
    /// active tab has been updated, if any.
    pub fn handle(&mut self, e: ShellEvent) -> (nav: Option<Route>)
        ensures
            final(self).active_tab == next_active(old(self).active_tab, e),
            nav == navigation_of(e),
    {
        match e {
            ShellEvent::RouteChanged(r) => {
                self.route_changed(r);
                None
            },
            ShellEvent::TabClicked(t) => Some(self.tab_clicked(t)),
        }
    }

    /// The controls of the tab bar bound to this shell's active tab.
    pub fn tab_bar(&self) -> (bar: Vec<TabControl>)
        ensures
            is_tab_bar(bar@, self.active_tab),
    {
        BottomTabBar(self.active_tab)
    }
}

/// A route change to `r`, then a click on the tab it highlighted, asks the
/// router for `r` again.
pub proof fn lemma_route_click_round_trip(active: MainTab, r: Route)
    ensures
        navigation_of(ShellEvent::TabClicked(next_active(active, ShellEvent::RouteChanged(r))))
            == Some(r),
{
}

/// A click on `t` sets the active tab to `t` in the same step that yields the
/// navigation request, so the highlight never waits for the router.
pub proof fn lemma_click_updates_before_navigation(active: MainTab, t: MainTab)
    ensures
        next_active(active, ShellEvent::TabClicked(t)) == t,
        navigation_of(ShellEvent::TabClicked(t)) == Some(route_of_tab(t)),
{
}

/// A route change to `r` leads to the same active tab from any previous
/// active tab: the tab mapped from `r`, and no other tab maps to `r`.
pub proof fn lemma_route_change_converges(a: MainTab, b: MainTab, r: Route)
    ensures
        next_active(a, ShellEvent::RouteChanged(r)) == tab_of_route(r),
        next_active(a, ShellEvent::RouteChanged(r)) == next_active(b, ShellEvent::RouteChanged(r)),
        forall|t: MainTab| route_of_tab(t) == r ==> t == tab_of_route(r),
{
}

/// The route change that follows a click's own navigation request leaves the
/// active tab where the click put it.
pub proof fn lemma_click_then_route_change_stable(active: MainTab, t: MainTab)
    ensures
        ({
            let after_click = next_active(active, ShellEvent::TabClicked(t));
            next_active(after_click, ShellEvent::RouteChanged(route_of_tab(t))) == after_click
        }),
{
}

} // verus!
