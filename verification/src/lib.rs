//! Terminal screens of an audio converter, computed as plain values.
//!
//! Every screen, pane and overlay is a function from application state to a
//! [`scene::Scene`]: the text, boxes and cursor to paint, in paint order, with
//! the clickable areas recorded in a [`button_map::ButtonRenderMap`]. Painting
//! the scene on a terminal is left to the caller.

pub mod text;
pub mod geometry;
pub mod scene;
pub mod style;
pub mod button_map;
pub mod display_width;
pub mod inline_edit;
pub mod size;
pub mod disc;
pub mod browse;
pub mod draw_browse;
pub mod panes;
pub mod layout;
pub mod overlay_parts;
pub mod format_settings;
pub mod help_text;
pub mod path;
pub mod metadata_editor;
pub mod draw_output;
pub mod pill;
pub mod draw_footer;
pub mod draw_settings;
pub mod draw_output_options;
pub mod reviews;
pub mod bulk_rename;
pub mod cue_preview;
pub mod reports;
pub mod rip_checks;
pub mod path_order;
pub mod dr_report;
pub mod musicbrainz;
pub mod convert;
pub mod draw_metadata;
pub mod dialogs;
pub mod context_menu;
pub mod disc_browser;
pub mod app_state;
pub mod disc_browser_actions;
pub mod draw_header;
pub mod draw_preset_bar;
pub mod draw_overlays;
pub mod draw;
pub mod laws;
