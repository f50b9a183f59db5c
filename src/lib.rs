//! Docks a window against the right edge of its display and toggles it, by a
//! global shortcut, between an expanded window that takes input and a
//! collapsed one that lets input pass through.

pub mod geometry;
pub mod style;
pub mod toggle;
