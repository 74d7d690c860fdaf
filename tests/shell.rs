use tab_shell::{
    page_for, AccountView, BottomTabBar, BottomTabLayout, MainTab, MapView, Route, ShellEvent,
    SocialFeedView, TabControl,
};

const ALL_TABS: [MainTab; 3] = [MainTab::MapView, MainTab::Account, MainTab::SocialFeed];
const ALL_ROUTES: [Route; 3] = [Route::MapView, Route::AccountView, Route::SocialFeedView];

fn selected_tabs(bar: &[TabControl]) -> Vec<MainTab> {
    bar.iter().filter(|c| c.selected).map(|c| c.tab).collect()
}

#[test]
fn route_to_tab_mapping() {
    assert_eq!(MainTab::from_route(Route::MapView), MainTab::MapView);
    assert_eq!(MainTab::from_route(Route::AccountView), MainTab::Account);
    assert_eq!(MainTab::from_route(Route::SocialFeedView), MainTab::SocialFeed);
    assert_eq!(Route::SocialFeedView.tab(), MainTab::SocialFeed);
}

#[test]
fn tab_to_route_mapping() {
    assert_eq!(MainTab::MapView.route(), Route::MapView);
    assert_eq!(MainTab::Account.route(), Route::AccountView);
    assert_eq!(MainTab::SocialFeed.route(), Route::SocialFeedView);
    assert_eq!(Route::from_tab(MainTab::Account), Route::AccountView);
}

#[test]
fn route_click_round_trip_for_every_route() {
    for r in ALL_ROUTES {
        let mut shell = BottomTabLayout();
        shell.route_changed(r);
        let nav = shell.tab_clicked(shell.active_tab);
        assert_eq!(nav, r);
    }
}

#[test]
fn tab_route_round_trip_for_every_tab() {
    for t in ALL_TABS {
        assert_eq!(MainTab::from_route(t.route()), t);
    }
}

#[test]
fn exactly_one_control_selected_for_every_tab() {
    for t in ALL_TABS {
        let bar = BottomTabBar(t);
        assert_eq!(bar.len(), 3);
        assert_eq!(selected_tabs(&bar), vec![t]);
    }
}

#[test]
fn tab_bar_order_and_labels() {
    let bar = BottomTabBar(MainTab::MapView);
    assert_eq!(bar[0].tab, MainTab::SocialFeed);
    assert_eq!(bar[0].label, "Social Feed");
    assert!(!bar[0].selected);
    assert_eq!(bar[1].tab, MainTab::MapView);
    assert_eq!(bar[1].label, "Map View");
    assert!(bar[1].selected);
    assert_eq!(bar[2].tab, MainTab::Account);
    assert_eq!(bar[2].label, "Account");
    assert!(!bar[2].selected);
}

#[test]
fn activating_a_control_hands_its_own_tab() {
    let bar = BottomTabBar(MainTab::MapView);
    assert_eq!(bar[0].activate(), MainTab::SocialFeed);
    assert_eq!(bar[1].activate(), MainTab::MapView);
    assert_eq!(bar[2].activate(), MainTab::Account);
}

#[test]
fn labels_of_tabs() {
    assert_eq!(MainTab::MapView.label(), "Map View");
    assert_eq!(MainTab::Account.label(), "Account");
    assert_eq!(MainTab::SocialFeed.label(), "Social Feed");
}

#[test]
fn new_shell_starts_on_map_view() {
    assert_eq!(BottomTabLayout().active_tab, MainTab::MapView);
}

#[test]
fn click_updates_active_tab_in_the_same_step() {
    for from in ALL_TABS {
        for t in ALL_TABS {
            let mut shell = BottomTabLayout();
            shell.route_changed(from.route());
            let nav = shell.tab_clicked(t);
            // The highlight has moved before the navigation request is issued.
            assert_eq!(shell.active_tab, t);
            assert_eq!(selected_tabs(&shell.tab_bar()), vec![t]);
            assert_eq!(nav, t.route());
        }
    }
}

#[test]
fn route_change_converges_from_any_tab() {
    for from in ALL_TABS {
        for r in ALL_ROUTES {
            let mut shell = BottomTabLayout();
            shell.tab_clicked(from);
            shell.route_changed(r);
            assert_eq!(shell.active_tab, MainTab::from_route(r));
        }
    }
}

#[test]
fn route_change_is_idempotent() {
    let mut shell = BottomTabLayout();
    shell.route_changed(Route::AccountView);
    let once = shell;
    shell.route_changed(Route::AccountView);
    assert_eq!(shell, once);
}

#[test]
fn route_change_to_account_highlights_account() {
    let mut shell = BottomTabLayout();
    assert_eq!(shell.active_tab, MainTab::MapView);
    let nav = shell.handle(ShellEvent::RouteChanged(Route::AccountView));
    assert_eq!(nav, None);
    assert_eq!(shell.active_tab, MainTab::Account);
    let bar = shell.tab_bar();
    for c in &bar {
        assert_eq!(c.selected, c.tab == MainTab::Account);
    }
    assert!(bar[2].selected);
    assert!(!bar[0].selected);
    assert!(!bar[1].selected);
}

#[test]
fn click_social_feed_then_route_change_keeps_social_feed() {
    let mut shell = BottomTabLayout();
    assert_eq!(shell.active_tab, MainTab::MapView);
    let bar = shell.tab_bar();
    let social = bar.iter().find(|c| c.label == "Social Feed").unwrap();
    let nav = shell.handle(ShellEvent::TabClicked(social.activate()));
    assert_eq!(shell.active_tab, MainTab::SocialFeed);
    assert_eq!(nav, Some(Route::SocialFeedView));
    let again = shell.handle(ShellEvent::RouteChanged(Route::SocialFeedView));
    assert_eq!(again, None);
    assert_eq!(shell.active_tab, MainTab::SocialFeed);
}

#[test]
fn placeholder_pages() {
    let m = MapView();
    assert_eq!(m.heading, "Map View");
    assert_eq!(m.description, "Restaurant map will appear here");
    let a = AccountView();
    assert_eq!(a.heading, "Account");
    assert_eq!(a.description, "Profile and settings will appear here");
    let s = SocialFeedView();
    assert_eq!(s.heading, "Social Feed");
    assert_eq!(s.description, "Friends' reviews and recommendations will appear here");
}

#[test]
fn content_slot_shows_the_current_routes_page() {
    assert_eq!(page_for(Route::MapView), MapView());
    assert_eq!(page_for(Route::AccountView), AccountView());
    assert_eq!(page_for(Route::SocialFeedView), SocialFeedView());
}
