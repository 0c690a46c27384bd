//! Detects a web browser's name and version from a User-Agent string, using
//! an ordered registry of token rules.

pub mod browser;
pub mod pattern;
pub mod laws;
pub mod registry;
pub mod shell;
