//! Watching folders: which events count, what has been pushed, and the loop
//! that decides what to do next.
pub mod events;
pub mod laws;
pub mod run;
pub mod seen;
