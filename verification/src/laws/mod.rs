//! What the screens, actions and reports promise, said of what goes in and what comes out.

pub mod browser;
pub mod dialogs;
pub mod disc;
pub mod dr;
pub mod dropdowns;
pub mod editing;
pub mod estimate;
pub mod footer;
pub mod formats;
pub mod info;
pub mod list;
pub mod lists;
pub mod menus;
pub mod options;
pub mod overlays;
pub mod panes;
pub mod places;
pub mod reports;
pub mod rips;
pub mod screens;
pub mod seqs;
pub mod tags;
pub mod texts;
pub mod toolbars;
