//! Decision logic of a small desktop shell that lives in the system tray.
//!
//! The shell owns a main window, a borderless spotlight window and a splash
//! window, and a tray menu of four commands. Everything here is pure: a click
//! on the menu is turned into the ordered list of steps that the windowing
//! framework has to carry out, together with the next value of the one flag
//! the shell remembers. Carrying the steps out is left to the caller.

pub mod text;
pub mod menu;
pub mod window;
pub mod action;
pub mod tray;
pub mod startup;
