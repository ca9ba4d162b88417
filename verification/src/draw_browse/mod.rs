//! The browse screen.

pub mod columns;
pub mod info;
pub mod list;
pub mod search;
pub mod menus;
pub mod tabs;
pub mod toolbar;
pub mod explore;
pub mod screen;
