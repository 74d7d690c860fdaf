//! The two closed identifier sets and the one-to-one correspondence between them.
use vstd::prelude::*;

verus! {

/// Which of the three main sections is highlighted in the tab bar.
#[derive(Clone, Copy, Debug, PartialEq, Eq, Structural)]
pub enum MainTab {
    MapView,
    Account,
    SocialFeed,
}

/// Which page the router considers current.
#[derive(Clone, Copy, Debug, PartialEq, Eq, Structural)]
pub enum Route {
    MapView,
    AccountView,
    SocialFeedView,
}

/// The tab that is highlighted while `r` is the current route.
pub open spec fn tab_of_route(r: Route) -> MainTab {
    match r {
        Route::MapView => MainTab::MapView,
        Route::AccountView => MainTab::Account,
        Route::SocialFeedView => MainTab::SocialFeed,
    }
}

/// The route that selecting tab `t` navigates to.
pub open spec fn route_of_tab(t: MainTab) -> Route {
    match t {
        MainTab::MapView => Route::MapView,
        MainTab::Account => Route::AccountView,
        MainTab::SocialFeed => Route::SocialFeedView,
    }
}

/// The caption shown on the control of tab `t`.
pub open spec fn label_of(t: MainTab) -> Seq<char> {
    match t {
        MainTab::MapView => "Map View"@,
        MainTab::Account => "Account"@,
        MainTab::SocialFeed => "Social Feed"@,
    }
}

impl MainTab {
    /// The tab that corresponds to route `r`.
    pub fn from_route(r: Route) -> (t: MainTab)
        ensures
            t == tab_of_route(r),
    {
        match r {
            Route::MapView => MainTab::MapView,
            Route::AccountView => MainTab::Account,
            Route::SocialFeedView => MainTab::SocialFeed,
        }
    }

    /// The route that this tab navigates to.
    pub fn route(self) -> (r: Route)
        ensures
            r == route_of_tab(self),
    {
        match self {
            MainTab::MapView => Route::MapView,
            MainTab::Account => Route::AccountView,
            MainTab::SocialFeed => Route::SocialFeedView,
        }
    }

    /// The fixed caption of this tab's control.
    pub fn label(self) -> (s: &'static str)
        ensures
            s@ == label_of(self),
    {
        match self {
            MainTab::MapView => "Map View",
            MainTab::Account => "Account",
            MainTab::SocialFeed => "Social Feed",
        }
    }
}

impl Route {
    /// The route that selecting tab `t` navigates to.
    pub fn from_tab(t: MainTab) -> (r: Route)
        ensures
            r == route_of_tab(t),
    {
        t.route()
    }

    /// The tab highlighted while this route is current.
    pub fn tab(self) -> (t: MainTab)
        ensures
            t == tab_of_route(self),
    {
        MainTab::from_route(self)
    }
}

/// Mapping a route to its tab and back gives the route again.
pub proof fn lemma_route_tab_round_trip(r: Route)
    ensures
        route_of_tab(tab_of_route(r)) == r,
{
}

/// Mapping a tab to its route and back gives the tab again.
pub proof fn lemma_tab_route_round_trip(t: MainTab)
    ensures
        tab_of_route(route_of_tab(t)) == t,
{
}

/// Distinct routes highlight distinct tabs, and distinct tabs navigate to
/// distinct routes.
pub proof fn lemma_correspondence_injective(r1: Route, r2: Route, t1: MainTab, t2: MainTab)
    ensures
        tab_of_route(r1) == tab_of_route(r2) ==> r1 == r2,
        route_of_tab(t1) == route_of_tab(t2) ==> t1 == t2,
{
}

} // verus!
