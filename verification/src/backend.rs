//! The backend contract: the minimal capability set any rendering sink must
//! provide, independent of how its output reaches a display. Every call a
//! driver makes is modelled in a ghost log of issued calls, so that the
//! driver's guarantees — what is sent, and in what order — can be stated
//! and proved against any conforming sink.

use vstd::prelude::*;

use crate::cell::Position;
use crate::cell::Rect;
use crate::diff::Change;

verus! {

/// The one error kind a sink operation can surface: the sink could not
/// accept output or answer a query.
#[derive(Clone, Copy, Debug, PartialEq, Eq, Structural)]
pub struct IoError {}

/// One call issued to a sink, as recorded in the sink's ghost log. A `Draw`
/// carries the batch of cell updates it was handed.
pub enum SinkCall {
    Draw(Seq<Change>),
    HideCursor,
    ShowCursor,
    GetCursor,
    SetCursor(Position),
    Clear,
    Size,
    Flush,
}

/// A rendering sink. Each operation appends its record to the sink's log
/// whether or not the sink then reports success: the log models the calls
/// issued, not the calls that took effect. Success and failure, the size
/// reported, and the cursor position reported are all sink-defined; a sink
/// unable to query real hardware may answer `get_cursor` with a fixed
/// placeholder, as long as it does so consistently.
pub trait Backend: Sized {
    /// The calls issued to this sink so far, oldest first. A sink that the
    /// verifier reads overrides this with its own model; the default — an
    /// empty history — cannot support the operations' contracts, so it only
    /// serves sinks that live outside the verified world.
    open spec fn log(&self) -> Seq<SinkCall> {
        Seq::empty()
    }

    /// Apply a batch of cell updates. Callers are expected to hand each
    /// position at most once per batch; the diffing renderer guarantees it.
    fn draw(&mut self, changes: Vec<Change>) -> (r: Result<(), IoError>)
        ensures
            final(self).log() == old(self).log().push(SinkCall::Draw(changes@)),
    ;

    fn hide_cursor(&mut self) -> (r: Result<(), IoError>)
        ensures
            final(self).log() == old(self).log().push(SinkCall::HideCursor),
    ;

    fn show_cursor(&mut self) -> (r: Result<(), IoError>)
        ensures
            final(self).log() == old(self).log().push(SinkCall::ShowCursor),
    ;

    /// The sink's last acknowledged cursor position, or a fixed placeholder
    /// for sinks that cannot query one.
    fn get_cursor(&mut self) -> (r: Result<Position, IoError>)
        ensures
            final(self).log() == old(self).log().push(SinkCall::GetCursor),
    ;

    fn set_cursor(&mut self, pos: Position) -> (r: Result<(), IoError>)
        ensures
            final(self).log() == old(self).log().push(SinkCall::SetCursor(pos)),
    ;

    /// Reset the whole viewport to a blank state.
    fn clear(&mut self) -> (r: Result<(), IoError>)
        ensures
            final(self).log() == old(self).log().push(SinkCall::Clear),
    ;

    /// The current viewport; it may change between any two calls.
    fn size(&mut self) -> (r: Result<Rect, IoError>)
        ensures
            final(self).log() == old(self).log().push(SinkCall::Size),
    ;

    /// Force buffered output to become visible.
    fn flush(&mut self) -> (r: Result<(), IoError>)
        ensures
            final(self).log() == old(self).log().push(SinkCall::Flush),
    ;
}

} // verus!
