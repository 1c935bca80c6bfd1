//! Selection and paging state for a two-pane file browser.
//!
//! A directory pane lists the subdirectories of a root, a file pane lists the
//! files of the directory that is highlighted there, and one of the two has
//! the input focus. Every pane keeps a single highlighted index that is
//! clamped to its list, and the file pane is rebuilt whenever the highlighted
//! directory changes.
//!
//! The library reads no disk, no keyboard and draws nothing. Its host walks
//! directories and hands the walks in (`listing`), turns key presses into
//! `input::Key`, and draws what `pane::WidgetData` describes.

pub mod app_state;
pub mod cursor;
pub mod dir_block;
pub mod file_block;
pub mod input;
pub mod listing;
pub mod pane;
pub mod style;
