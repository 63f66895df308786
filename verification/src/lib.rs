//! Verified core of the GPUI front end for WezTerm: the pane split tree,
//! tab-title and tab-close rules, the command catalog, quick-select labels,
//! hover/click decisions, selection geometry and pixel helpers.

pub mod text;
pub mod split_layout;
pub mod split_laws;
pub mod lua_ui;
pub mod commands;
pub mod boxdraw;
pub mod win_zorder;
pub mod hover;
pub mod glyph;
pub mod selection;
pub mod placement;
pub mod find;
pub mod tab_strip;
pub mod palette_dispatch;
pub mod cycle;
pub mod tab_stack;
pub mod quick_select;
pub mod keys;
pub mod picker;
pub mod palette_rows;
pub mod launcher;
pub mod pane_search;
pub mod pane_text;
pub mod selection_text;
pub mod domains;
