//! The three placeholder pages that the router's content slot shows.
use vstd::prelude::*;
use crate::tabs::Route;

verus! {

/// A constant page: a heading and one line of description.
#[derive(Clone, Copy, Debug, PartialEq, Eq)]
pub struct PlaceholderPage {
    pub heading: &'static str,
    pub description: &'static str,
}

/// The page shown for the Map View route.
#[allow(non_snake_case)]
pub fn MapView() -> (p: PlaceholderPage)
    ensures
        p.heading@ == "Map View"@,
        p.description@ == "Restaurant map will appear here"@,
{
    PlaceholderPage { heading: "Map View", description: "Restaurant map will appear here" }
}

/// The page shown for the Account route.
#[allow(non_snake_case)]
pub fn AccountView() -> (p: PlaceholderPage)
    ensures
        p.heading@ == "Account"@,
        p.description@ == "Profile and settings will appear here"@,
{
    PlaceholderPage { heading: "Account", description: "Profile and settings will appear here" }
}

/// The page shown for the Social Feed route.
#[allow(non_snake_case)]
pub fn SocialFeedView() -> (p: PlaceholderPage)
    ensures
        p.heading@ == "Social Feed"@,
        p.description@ == "Friends' reviews and recommendations will appear here"@,
{
    PlaceholderPage {
        heading: "Social Feed",
        description: "Friends' reviews and recommendations will appear here",
    }
}

/// The heading of the page shown for route `r`.
pub open spec fn heading_of(r: Route) -> Seq<char> {
    match r {
        Route::MapView => "Map View"@,
        Route::AccountView => "Account"@,
        Route::SocialFeedView => "Social Feed"@,
    }
}

/// The description line of the page shown for route `r`.
pub open spec fn description_of(r: Route) -> Seq<char> {
    match r {
        Route::MapView => "Restaurant map will appear here"@,
        Route::AccountView => "Profile and settings will appear here"@,
        Route::SocialFeedView => "Friends' reviews and recommendations will appear here"@,
    }
}

/// The page that the content slot shows while `r` is the current route.
pub fn page_for(r: Route) -> (p: PlaceholderPage)
    ensures
        p.heading@ == heading_of(r),
        p.description@ == description_of(r),
{
    match r {
        Route::MapView => MapView(),
        Route::AccountView => AccountView(),
        Route::SocialFeedView => SocialFeedView(),
    }
}

} // verus!
