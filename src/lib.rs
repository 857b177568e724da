//! Session control for an interactive tool that finds, lists and removes
//! stale build-output directories.

pub mod text;
pub mod popup;
pub mod scan;
pub mod session;
pub mod history;
