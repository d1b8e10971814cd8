//! The parts of a speedrun timer whose behaviour is proved: the global
//! hotkeys, decided from the raw keyboard events of the operating system,
//! and the list of splits with its settings and its scrolling window.

pub mod component;
pub mod hotkey;
pub mod platform;
pub mod settings;
pub mod timing;
