//! Verified core of the BlazePilot file explorer: formatting of sizes and
//! dates, themes, background tasks, selection and ordering rules, menus and
//! the small decisions that drive the window loop.

pub mod text;
pub mod formatting;
pub mod themes;
pub mod tasks;
pub mod ordering;
pub mod selection;
pub mod sidebar;
pub mod file_icons;
pub mod context_menu;
pub mod hot_keys;
pub mod repaint;
pub mod window;
pub mod launch;
pub mod channels;
pub mod interactions;
pub mod view_mode;
pub mod folder_sizes;
pub mod path_bar;
