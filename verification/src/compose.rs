//! The composition callback boundary: the one interface through which the
//! frame loop consumes the widget layer. A composer is handed the current
//! viewport and a blank target buffer, fills in the desired cell contents,
//! and may ask for cursor changes or for the loop to stop.

use vstd::prelude::*;

use crate::buffer::Buffer;
use crate::cell::Cell;
use crate::cell::Position;
use crate::cell::Rect;

verus! {

/// What a composer asks of the driver for the frame it just filled:
/// optionally show (`Some(true)`) or hide (`Some(false)`) the cursor,
/// optionally move it, and whether the loop should stop after this frame.
#[derive(Clone, Copy, Debug)]
pub struct Directive {
    pub show: Option<bool>,
    pub move_to: Option<Position>,
    pub stop: bool,
}

impl Directive {
    /// Ask for nothing: no cursor change, keep looping.
    pub fn none() -> (d: Directive)
        ensures
            d.show is None,
            d.move_to is None,
            !d.stop,
    {
        Directive { show: None, move_to: None, stop: false }
    }
}

/// A producer of desired frames. The driver guarantees the target it hands
/// over is well formed and sized exactly to `area`; the composer must keep
/// it that way, and is otherwise free to write any contents.
pub trait Composer: Sized {
    fn compose(&mut self, area: Rect, target: &mut Buffer) -> (d: Directive)
        requires
            old(target).wf(),
            old(target).width == area.width,
            old(target).height == area.height,
        ensures
            final(target).wf(),
            final(target).width == area.width,
            final(target).height == area.height,
    ;
}

/// A composer that paints the whole viewport with one fixed cell.
pub struct FillComposer {
    pub cell: Cell,
}

impl Composer for FillComposer {
    fn compose(&mut self, area: Rect, target: &mut Buffer) -> (d: Directive)
        ensures
            *final(self) == *old(self),
            final(target).cells@.len() == old(target).cells@.len(),
            forall|i: int|
                0 <= i < final(target).cells@.len() ==> final(target).cells@[i] == old(self).cell,
            d.show is None,
            d.move_to is None,
            !d.stop,
    {
        target.fill(self.cell);
        Directive::none()
    }
}

/// A composer that draws nothing and answers every frame with one fixed
/// directive: the way to ask the driver for cursor changes, or to stop,
/// without composing any content.
pub struct DirectiveComposer {
    pub directive: Directive,
}

impl Composer for DirectiveComposer {
    fn compose(&mut self, area: Rect, target: &mut Buffer) -> (d: Directive)
        ensures
            *final(self) == *old(self),
            *final(target) == *old(target),
            d == old(self).directive,
    {
        self.directive
    }
}

/// A composer that stamps a running frame counter into the cell at the
/// origin, so that every composed frame differs from the one before it.
pub struct StampComposer {
    pub frames: u16,
}

impl Composer for StampComposer {
    fn compose(&mut self, area: Rect, target: &mut Buffer) -> (d: Directive)
        ensures
            final(self).frames == (if old(self).frames < u16::MAX {
                (old(self).frames + 1) as u16
            } else {
                old(self).frames
            }),
            area.width > 0 && area.height > 0 ==> final(target).cells@ == old(
                target,
            ).cells@.update(0, (Cell { glyph: 'x', style: final(self).frames })),
            !(area.width > 0 && area.height > 0) ==> *final(target) == *old(target),
            d.show is None,
            d.move_to is None,
            !d.stop,
    {
        if self.frames < u16::MAX {
            self.frames = self.frames + 1;
        }
        if area.width > 0 && area.height > 0 {
            target.set(0, 0, Cell { glyph: 'x', style: self.frames });
        }
        Directive::none()
    }
}

} // verus!
