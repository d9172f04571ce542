//! The board view's state: which column and task are selected, and moving
//! tasks between columns.
pub mod app;
