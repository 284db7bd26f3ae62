//! Decisions of a small desktop shell that launches files as processes.
//!
//! The shell's window system and process spawning live outside this crate;
//! the functions here take what those produced as plain values and decide
//! what happens next.
pub mod icon;
pub mod launch;
pub mod shell;
