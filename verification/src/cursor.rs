//! The cursor visibility state machine, and the clamping of cursor moves to
//! the last reported viewport. `show` and `hide` force their target state
//! and emit an underlying sink call only when the state actually flips, so
//! repeated calls in the same state stay silent on the wire.

use vstd::prelude::*;

use crate::cell::Position;
use crate::cell::Rect;

verus! {

/// Whether the cursor is currently visible. A fresh terminal starts `Shown`,
/// matching the usual terminal default.
#[derive(Clone, Copy, Debug, PartialEq, Eq, Structural)]
pub enum Visibility {
    Shown,
    Hidden,
}

/// The cursor's tracked state: visibility plus the last position set.
#[derive(Clone, Copy, Debug, PartialEq, Eq, Structural)]
pub struct CursorState {
    pub vis: Visibility,
    pub pos: Position,
}

/// The state after a `show` request: always `Shown`.
pub open spec fn show_transition(v: Visibility) -> Visibility {
    Visibility::Shown
}

/// Whether a `show` request from state `v` issues an underlying
/// `show_cursor` call: only when the cursor was hidden.
pub open spec fn show_emits(v: Visibility) -> bool {
    v == Visibility::Hidden
}

/// The state after a `hide` request: always `Hidden`.
pub open spec fn hide_transition(v: Visibility) -> Visibility {
    Visibility::Hidden
}

/// Whether a `hide` request from state `v` issues an underlying
/// `hide_cursor` call: only when the cursor was shown.
pub open spec fn hide_emits(v: Visibility) -> bool {
    v == Visibility::Shown
}

/// Showing the cursor is idempotent: whatever the starting state, the second
/// of two consecutive `show` requests issues no underlying call, so the pair
/// issues at most one.
pub proof fn lemma_show_idempotent(v: Visibility)
    ensures
        !show_emits(show_transition(v)),
        show_transition(show_transition(v)) == show_transition(v),
{
}

/// Hiding the cursor is idempotent in the same way.
pub proof fn lemma_hide_idempotent(v: Visibility)
    ensures
        !hide_emits(hide_transition(v)),
        hide_transition(hide_transition(v)) == hide_transition(v),
{
}

/// Clamp a single coordinate into `[0, bound - 1]`. A zero bound has no
/// in-bounds coordinate at all; the clamp then answers 0, and the viewport
/// is empty anyway.
pub open spec fn clamp_axis_spec(v: int, bound: int) -> int {
    if bound == 0 {
        0
    } else if v >= bound {
        bound - 1
    } else {
        v
    }
}

/// Clamp a requested cursor position to the viewport's width and height.
pub open spec fn clamp_spec(p: Position, area: Rect) -> Position {
    Position {
        x: clamp_axis_spec(p.x as int, area.width as int) as u16,
        y: clamp_axis_spec(p.y as int, area.height as int) as u16,
    }
}

/// On a non-empty viewport the clamped position is always in bounds, and a
/// position that already was in bounds is left unchanged.
pub proof fn lemma_clamp_in_bounds(p: Position, area: Rect)
    requires
        area.width > 0,
        area.height > 0,
    ensures
        clamp_spec(p, area).x < area.width,
        clamp_spec(p, area).y < area.height,
        p.x < area.width && p.y < area.height ==> clamp_spec(p, area) == p,
{
}

/// Clamp a requested cursor position to the viewport.
pub fn clamp_position(p: Position, area: Rect) -> (r: Position)
    ensures
        r == clamp_spec(p, area),
{
    let x: u16 = if area.width == 0 {
        0
    } else if p.x >= area.width {
        area.width - 1
    } else {
        p.x
    };
    let y: u16 = if area.height == 0 {
        0
    } else if p.y >= area.height {
        area.height - 1
    } else {
        p.y
    };
    Position { x, y }
}

} // verus!
