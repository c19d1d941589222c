//! A keyboard-lighting mode toggle: cycles an external controller through
//! three named modes (`On`, `Keyboard`, `Off`) and persists the last-selected
//! mode so later invocations continue the rotation.
//!
//! This crate holds the verified logic: the mode rotation, the text
//! utilities that load and inspect controller output, and the state-file
//! path construction. Process spawning and file reads and writes live in
//! the surrounding binary, which feeds their results to this library.

pub mod modes;
pub mod paths;
pub mod switch;
pub mod text;
