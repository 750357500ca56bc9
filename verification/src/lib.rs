//! Watches folders for new screenshots and puts each one on the clipboard as
//! an image, a file and a path at once.
pub mod base_dirs;
pub mod cli;
pub mod clipboard;
pub mod config;
pub mod day;
pub mod failure;
pub mod images;
pub mod installer;
pub mod notify;
pub mod path;
pub mod platform;
pub mod powershell;
pub mod single_instance;
pub mod text;
pub mod tray;
pub mod watcher;
pub mod windows_shortcut;
