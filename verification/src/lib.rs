//! Theme and palette resolution for a widget-styling toolkit.
//!
//! A user may drop a TOML colour-scheme file into their configuration
//! directory; this crate parses it against a fixed cascade of schema shapes,
//! expands the colours it names into a full extended palette, and falls back
//! to a built-in dark palette whenever the file is absent or malformed.

pub mod any_send;
pub mod color;
pub mod document;
pub mod legacy_theme;
pub mod oxitheme;
pub mod palette;
pub mod theme;
pub mod widgets;

pub use color::Rgba;
