//! The event coordination engine of a keyboard-layer indicator: a small
//! window that follows the cursor and shows by its colour which layer of the
//! keyboard is active.
//!
//! Two watchers feed one controller. The device watcher ([`hid`]) reads the
//! active layer from the keyboard's HID side channel and reconnects after
//! every failure. The pointer watcher ([`mouse_hook`]) follows the cursor at
//! a bounded rate. Both publish commands to the overlay controller
//! ([`window`]), the one owner of what is on the screen.
//!
//! Nothing here performs I/O. Each part is a state machine: the caller
//! reports what happened, the machine answers with what to do next, and its
//! contract says exactly which answer that is.

pub mod config;
pub mod hid;
pub mod mouse_hook;
pub mod window;
