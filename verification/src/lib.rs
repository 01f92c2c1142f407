//! The verified logic of a COSMIC panel applet that watches for pending
//! package updates from pacman, the AUR and Flatpak.
pub mod applet;
pub mod config;
pub mod display;
pub mod laws;
pub mod terminal;
pub mod text;
pub mod updates;
