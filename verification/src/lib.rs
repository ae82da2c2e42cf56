//! Control layer of an interactive editor: registries of pluggable,
//! stateful behavioral units (actions and views) selected by keyboard
//! shortcuts, a lifecycle driver that turns input events into phase
//! calls, and a window multiplexer that routes erased messages to views
//! and choreographs window open/close against view lifecycle.

pub mod id;
pub mod keys;
pub mod mouse;
pub mod canvas;
pub mod shell;
pub mod matcher;
pub mod registry;
pub mod action;
pub mod control;
pub mod tools;
pub mod task;
pub mod driver;
pub mod windows;
pub mod main_view;
