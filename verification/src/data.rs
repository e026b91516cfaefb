//! The records the console shows: log lines and loaded mods.

pub mod bepinex_log;
pub mod bepinex_mod;
