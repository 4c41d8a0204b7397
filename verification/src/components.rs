//! The rows and pages the main window is built from.

pub mod comment_row;
pub mod post_page;
pub mod post_row;
pub mod profile_page;
