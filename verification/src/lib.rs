//! Clipboard change detection, deduplication and event shaping.
//!
//! The crate holds the decisions of a clipboard watcher: which representation
//! of a clipboard reading is reported, whether it differs from what was seen
//! before, how a persisted image is named, what is published for it, and how
//! the single background listener is started and stopped. Beside the watcher
//! it holds the smaller decisions of the application around it: the tray and
//! its menu, the placing of the main window, archive listings, and the moving
//! of a registry key.
//!
//! Nothing here touches the clipboard, the disk or a window. The caller reads
//! and writes, and hands over plain values.

pub mod archive;
pub mod classify;
pub mod event;
pub mod json;
pub mod lifecycle;
pub mod naming;
pub mod payload;
pub mod permission;
pub mod registry;
pub mod settings;
pub mod snapshot;
pub mod text;
pub mod tray;
pub mod watcher;
pub mod window;
pub mod writeback;
