//! Live reloading of an application's stylesheet.
//!
//! `watch` decides which filesystem notifications mean that the stylesheet's content
//! changed, `reload` drives each load of the stylesheet against the style sink and
//! keeps the last style the sink accepted, and `path` holds the paths both work on.
//! Watching, reading the file and applying the style are left to the caller, which
//! hands their outcomes back as plain values.

pub mod path;
pub mod reload;
pub mod watch;
