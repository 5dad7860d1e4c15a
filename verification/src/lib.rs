//! A daily planner: recurring daily habits checked off per calendar day,
//! and one-off todos pinned to a day, navigated as two focusable lists.

pub mod date;
pub mod text;
pub mod items;
pub mod selection;
pub mod app;
pub mod laws;
