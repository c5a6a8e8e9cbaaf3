//! Errors of the library.
//!
//! Each failing Win32 call is reported with its `HRESULT` code.

use vstd::prelude::*;

verus! {

/// Errors that can occur when working with Windows shell context menus.
#[derive(Debug, PartialEq, Eq)]
pub enum Error {
    /// COM runtime failed to initialize.
    ComInit(i32),
    /// A filesystem path could not be resolved to a shell item (PIDL).
    ParsePath {
        /// The path that failed to resolve.
        path: String,
        /// The `HRESULT` of the failure.
        code: i32,
    },
    /// `SHBindToParent` could not locate the parent `IShellFolder`.
    BindToParent(i32),
    /// No paths were given, or they do not share a common parent folder.
    NoCommonParent,
    /// The shell folder refused to hand out an `IContextMenu` interface.
    GetContextMenu(i32),
    /// `IContextMenu::QueryContextMenu` failed.
    QueryContextMenu(i32),
    /// `TrackPopupMenu` failed to display the context menu.
    TrackPopupMenu(i32),
    /// `IContextMenu::InvokeCommand` failed to execute the selected command.
    InvokeCommand(i32),
    /// `IContextMenu::GetCommandString` failed.
    GetCommandString(i32),
    /// `GetMenuItemInfoW` failed to retrieve menu item metadata.
    GetMenuItemInfo(i32),
    /// Failed to create the hidden owner window used for submenu rendering.
    CreateWindow(i32),
    /// Failed to register the window class for the hidden owner window.
    RegisterClass(i32),
    /// Any other Windows API error.
    Windows(i32),
}

/// A specialized `Result` type for this crate.
pub type Result<T> = core::result::Result<T, Error>;

/// True when an `HRESULT` reports success (`S_OK`, `S_FALSE`, ...): its
/// severity bit is clear.
pub open spec fn hresult_succeeded(hr: i32) -> bool {
    hr >= 0
}

/// Tells whether an `HRESULT` reports success.
pub fn succeeded(hr: i32) -> (res: bool)
    ensures
        res == hresult_succeeded(hr),
{
    hr >= 0
}

} // verus!
