//! The controller of a desktop shell that lives in the system tray.
//!
//! The shell owns one window, undecorated and pinned above all others, and a
//! tray icon with the entries Show, Hide and Quit. Closing the window hides
//! it; only Quit ends the process.
//!
//! Nothing here touches a windowing system. Each handler answers an event
//! with a script, a list of steps for the caller to carry out on the real
//! window, and [`shell::Shell`] says what carrying a script out does to the
//! window and to the process.

pub mod controller;
pub mod event;
pub mod laws;
pub mod menu;
pub mod script;
pub mod shell;
pub mod window;
