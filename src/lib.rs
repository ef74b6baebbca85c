//! Editor configuration and menu-bar composition.

pub mod config;
pub mod menu;

pub use config::{AppTheme, Config, ConfigState, FontMetrics, ThemeKind, CONFIG_VERSION};
pub use menu::{menu_bar, KeyBinding, MenuLabel, MenuTree, Message};
