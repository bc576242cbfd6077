//! Cursor shapes and grab modes, with winit's variant names.

use vstd::prelude::*;

verus! {

/// The shape of the mouse cursor.
#[derive(Copy, Clone, Debug, PartialEq, Eq, Hash, Structural)]
pub enum CursorIcon {
    Default,
    ContextMenu,
    Help,
    Pointer,
    Progress,
    Wait,
    Cell,
    Crosshair,
    Text,
    VerticalText,
    Alias,
    Copy,
    Move,
    NoDrop,
    NotAllowed,
    Grab,
    Grabbing,
    EResize,
    NResize,
    NeResize,
    NwResize,
    SResize,
    SeResize,
    SwResize,
    WResize,
    EwResize,
    NsResize,
    NeswResize,
    NwseResize,
    ColResize,
    RowResize,
    AllScroll,
    ZoomIn,
    ZoomOut,
    DndAsk,
    AllResize,
}

impl Default for CursorIcon {
    fn default() -> (r: Self)
        ensures r == CursorIcon::Default,
    {
        CursorIcon::Default
    }
}

/// How the cursor is confined while the window has focus.
#[derive(Copy, Clone, Debug, PartialEq, Eq, Hash, Structural)]
pub enum CursorGrabMode {
    /// No grabbing: the cursor can leave the window freely.
    Free,
    /// Confined to the window area, still free to move within it.
    Confined,
    /// Locked in place at its current position.
    Locked,
}

impl Default for CursorGrabMode {
    fn default() -> (r: Self)
        ensures r == CursorGrabMode::Free,
    {
        CursorGrabMode::Free
    }
}

} // verus!
