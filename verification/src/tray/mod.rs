//! The tray: its labels, its menu, and what each event does to the session.
pub mod icon;
pub mod labels;
pub mod laws;
pub mod menu;
pub mod state;
