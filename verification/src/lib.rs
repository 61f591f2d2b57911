//! Core of a hierarchical item browser: a navigation state machine with
//! back/forward/up history and keyboard-driven selection, a virtualized list
//! viewport that computes the visible row range from scroll geometry, a
//! draggable scrollbar controller, and the pure decision logic around them
//! (column formatting, preview dispatch, key dispatch, file collection).
//!
//! All I/O (listing directories, opening files, rendering) lives outside this
//! crate; the library works on plain values and is verified.

pub mod collection;
pub mod columns;
pub mod icon;
pub mod input;
pub mod location;
pub mod nav;
pub mod preview;
pub mod scrollbar;
pub mod table;
pub mod viewport;
