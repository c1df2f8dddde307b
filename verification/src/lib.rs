//! Layout, text-measuring and state logic of a terminal database client.
use vstd::prelude::*;

pub mod text;
pub mod cells;
pub mod geometry;
pub mod tabs;
pub mod completion;
pub mod editor;
pub mod scrollbar;
pub mod dialog_footer;
pub mod dialog;
pub mod notifications;
pub mod workspace;
pub mod redis;
pub mod uninstall;
pub mod theme;
pub mod shortcut_hints;
pub mod query_bar;
pub mod update;
pub mod principal;
pub mod execution;
pub mod sql_history;
pub mod redis_browser;
pub mod omni;
pub mod relation;
pub mod results;
pub mod gestures;
pub mod highlight;
pub mod sql_preview;
pub mod footer;
pub mod editor_spans;
pub mod matching;
pub mod history_cache;
pub mod panes;
pub mod hits;
pub mod console_manager;
pub mod tab_bar;
pub mod overlay;
pub mod explorer_search;

verus! {

} // verus!
pub mod profile_group;
pub mod principal_overview;
pub mod relation_data;
pub mod editor_frame;
pub mod redis_keys_pane;
pub mod frame_plan;
pub mod selectors;
