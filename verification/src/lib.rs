//! Drag-and-drop and clipboard transfers over the X11 selection protocols.

pub mod atoms;
pub mod bytes;
pub mod clipboard;
pub mod data;
pub mod drag;
pub mod error;
pub mod hint;
pub mod id;
pub mod incr;
pub mod protocol;
pub mod selection;
pub mod text;
pub mod transfer;
