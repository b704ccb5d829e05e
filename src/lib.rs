//! Decision logic of a command-line helper that unifies the official binary
//! repositories of an Arch-style distribution with the AUR.
//!
//! The library decides what to run and what to show; the program around it
//! runs the package manager, `git`, `makepkg` and the one HTTP request, and
//! hands the outcomes back as plain values.
pub mod command;
pub mod install;
pub mod remove;
pub mod search;
