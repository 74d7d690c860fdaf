//! Navigation shell of a three-tab application: the tab and route identifiers,
//! the tab bar's controls, the placeholder pages, and the shell that keeps the
//! active tab in step with the router.
pub mod layout;
pub mod tab_bar;
pub mod tabs;
pub mod views;

pub use layout::{BottomTabLayout, ShellEvent, TabLayout};
pub use tab_bar::{BottomTabBar, TabControl};
pub use tabs::{MainTab, Route};
pub use views::{AccountView, MapView, PlaceholderPage, SocialFeedView, page_for};
