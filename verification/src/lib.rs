//! Verified core of a small terminal screen editor.
//!
//! The library owns the editor's logic: the cursor model clamped to the
//! viewport, the theme table, the terminal session as a queue of device
//! commands with a model of the input mode, and the event loop's state
//! machine. Performing the queued commands on a real terminal device and
//! reading input events are left to an unverified front end.

pub mod cursor;
pub mod editor;
pub mod terminal;
pub mod theme;
