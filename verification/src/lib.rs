//! The decisions behind an editor's startup and its workspace.
//!
//! Everything here computes on plain values: the windowing toolkit, the disk and
//! the key-value store are reached by the program around the library, which
//! performs the requests it is handed and reports what came of them.

pub mod entity;
pub mod fonts;
pub mod installation;
pub mod item;
pub mod item_settings;
pub mod launch;
pub mod logging;
pub mod notifications;
pub mod paths;
pub mod project_items;
pub mod restore;
pub mod text;
pub mod toast;
pub mod workspace;
