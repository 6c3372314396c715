//! View logic of the launcher and the in-game menu: the status-bar battery
//! indicator, the WiFi icon, the in-game menu and the launcher's top-level
//! view, as state machines over plain geometry.
pub mod app;
pub mod battery_indicator;
pub mod geom;
pub mod ingame_menu;
pub mod input;
pub mod style;
pub mod text;
pub mod wifi_icon;
