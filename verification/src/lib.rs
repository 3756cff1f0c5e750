//! Verified core of a Discord music bot: duration formatting, track
//! metadata rendering and pagination, playlist output parsing, and the
//! decisions each chat command takes.

pub mod commands;
pub mod dirustic_error;
pub mod text;
pub mod types;
