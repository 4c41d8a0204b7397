//! Decision logic of a desktop client for Lemmy instances: what each screen
//! shows, which request follows which user action, and how text from the
//! service is prepared for display.

pub mod address;
pub mod api;
pub mod app;
pub mod components;
pub mod data;
pub mod render;
pub mod text;
pub mod util;

pub use app::AppMsg;
