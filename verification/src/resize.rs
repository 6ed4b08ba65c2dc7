//! Resize handles of the crop editor.
//!
//! A drag on the crop rectangle grabs an edge, a corner, or nothing; each
//! predicate below says whether the grabbed handle moves the named edge
//! (a corner moves two edges at once).

use vstd::prelude::*;

verus! {

/// Which handle of the crop rectangle a drag grabbed.
#[derive(Clone, Copy, Debug, PartialEq, Eq, Structural)]
pub enum ResizeMode {
    /// No handle: the drag resizes nothing.
    Idle,
    Left,
    TopLeft,
    Top,
    TopRight,
    Right,
    BottomRight,
    Bottom,
    BottomLeft,
}

impl ResizeMode {
    /// Whether the drag moves the top edge.
    pub fn top(&self) -> (b: bool)
        ensures
            b == (*self == ResizeMode::Top || *self == ResizeMode::TopLeft || *self
                == ResizeMode::TopRight),
    {
        *self == ResizeMode::Top || *self == ResizeMode::TopLeft || *self == ResizeMode::TopRight
    }

    /// Whether the drag moves the bottom edge.
    pub fn bottom(&self) -> (b: bool)
        ensures
            b == (*self == ResizeMode::Bottom || *self == ResizeMode::BottomLeft || *self
                == ResizeMode::BottomRight),
    {
        *self == ResizeMode::Bottom || *self == ResizeMode::BottomLeft || *self
            == ResizeMode::BottomRight
    }

    /// Whether the drag moves the left edge.
    pub fn left(&self) -> (b: bool)
        ensures
            b == (*self == ResizeMode::Left || *self == ResizeMode::TopLeft || *self
                == ResizeMode::BottomLeft),
    {
        *self == ResizeMode::Left || *self == ResizeMode::TopLeft || *self
            == ResizeMode::BottomLeft
    }

    /// Whether the drag moves the right edge.
    pub fn right(&self) -> (b: bool)
        ensures
            b == (*self == ResizeMode::Right || *self == ResizeMode::TopRight || *self
                == ResizeMode::BottomRight),
    {
        *self == ResizeMode::Right || *self == ResizeMode::TopRight || *self
            == ResizeMode::BottomRight
    }
}

} // verus!
