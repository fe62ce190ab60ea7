//! Remaps the main-keyboard slash key to the numeric-keypad divide key.
//!
//! The host (a low-level keyboard hook) hands every key event to
//! [`filter::handle`], which decides whether the event passes on unchanged
//! or is suppressed in favour of an injected substitute.
pub mod event;
pub mod filter;
pub mod laws;
