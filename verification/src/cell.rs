//! The basic screen-geometry values: a single character cell, a cursor
//! position, and the viewport rectangle reported by a sink.

use vstd::prelude::*;

verus! {

/// The smallest addressable unit of screen content: a glyph plus a packed
/// style word. Cells are replaced whole across frames, never mutated in place.
#[derive(Clone, Copy, Debug, PartialEq, Eq, Structural)]
pub struct Cell {
    pub glyph: char,
    pub style: u16,
}

impl Cell {
    /// The blank cell that a freshly allocated buffer is filled with. Its
    /// glyph is the NUL character rather than a space, so that a frame that
    /// draws visible spaces is distinguishable from content that was never
    /// drawn at all.
    pub fn blank() -> (c: Cell)
        ensures
            c == Cell::blank_spec(),
    {
        Cell { glyph: '\u{0}', style: 0 }
    }

    pub open spec fn blank_spec() -> Cell {
        Cell { glyph: '\u{0}', style: 0 }
    }
}

/// A 0-based cursor position, x to the right and y downward.
#[derive(Clone, Copy, Debug, PartialEq, Eq, Structural)]
pub struct Position {
    pub x: u16,
    pub y: u16,
}

/// The addressable drawing area as last reported by a sink: an origin plus a
/// width and a height. A rectangle is only valid for the frame in which it
/// was queried; a resize may change it between any two frames.
#[derive(Clone, Copy, Debug, PartialEq, Eq, Structural)]
pub struct Rect {
    pub x: u16,
    pub y: u16,
    pub width: u16,
    pub height: u16,
}

} // verus!
