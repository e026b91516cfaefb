//! The logic behind a live console window for a running game process:
//! the growing log buffer, the per-row decisions that keep drawing cost
//! bounded, drag selection across frames, filtering, and the pause and
//! kill controls. Drawing, the clipboard and the operating system stay
//! with the caller. The logic here is verified with Verus. The few calls
//! into std and into the channel crate are trusted: their contracts are
//! believed, not proved, and their documentation says so.

pub mod channel;
pub mod config;
pub mod disclaimer;
pub mod filter;
pub mod general;
pub mod geometry;
pub mod process;
pub mod scroll;
pub mod selection;
pub mod settings;
pub mod text;
pub mod virtualization;

pub mod console;
pub mod data;
