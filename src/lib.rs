//! A tray-resident voice helper: clipboard and keystroke commands planned as
//! step scripts, a runner that drives a script against the host one outcome at
//! a time, and the tray / global-hotkey controller of the main window.

pub mod keys;
pub mod script;
pub mod run;
pub mod shell;
pub mod laws;
