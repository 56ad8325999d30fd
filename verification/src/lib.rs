//! Input spectrum: the verified core of a terminal spectrum wall driven by
//! keyboard input.

pub mod app;
pub mod cli;
pub mod events;
pub mod frame_loop;
pub mod global_input;
pub mod keys;
pub mod text;
pub mod ui;
