//! Verified core of a Windows Explorer context-menu library.
//!
//! The shell itself (COM, `HMENU` handles, the popup, command invocation) is
//! reached through `unsafe` Win32 calls, which live in the companion
//! application crate. This library holds every decision those calls feed:
//! how menu entries are decoded into [`MenuItem`]s, which command ids carry a
//! verb, how a popup selection is classified, what a command invocation is
//! made of, how selected paths must share a parent folder, and the text
//! conversions between Rust strings and the shell's ANSI and UTF-16 buffers.

pub mod com;
pub mod error;
pub mod menu;
pub mod menu_items;
pub mod shell;
pub mod text;
pub mod wide;

pub use com::{init_com, ComGuard};
pub use error::{Error, Result};
pub use menu_items::{InvokeParams, MenuItem, SelectedItem};
