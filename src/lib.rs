//! Selection model, screen flow and operation dispatch of an interactive
//! system-maintenance menu. Terminal handling and the commands themselves
//! live with the caller; everything here is plain data and transitions.

pub mod menu;
pub mod descriptions;
pub mod text;
pub mod operations;
pub mod runner;
pub mod catalog;
pub mod display;
pub mod screen;
pub mod arch_tui;
