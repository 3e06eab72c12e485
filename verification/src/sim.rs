//! A simulated sink: a conforming `Backend` that performs no real output
//! and instead records every call it is handed. It can be scheduled to
//! fail a chosen `draw` call, which is how failure paths of the frame loop
//! are exercised without a faulty terminal at hand.

use vstd::prelude::*;

use crate::backend::Backend;
use crate::backend::IoError;
use crate::backend::SinkCall;
use crate::cell::Position;
use crate::cell::Rect;
use crate::diff::Change;

verus! {

/// An executable record of one sink call, as kept by `SimSink`.
pub enum RecordedCall {
    Draw(Vec<Change>),
    HideCursor,
    ShowCursor,
    GetCursor,
    SetCursor(Position),
    Clear,
    Size,
    Flush,
}

/// The ghost view of a recorded call.
pub open spec fn recorded_view(c: RecordedCall) -> SinkCall {
    match c {
        RecordedCall::Draw(v) => SinkCall::Draw(v@),
        RecordedCall::HideCursor => SinkCall::HideCursor,
        RecordedCall::ShowCursor => SinkCall::ShowCursor,
        RecordedCall::GetCursor => SinkCall::GetCursor,
        RecordedCall::SetCursor(p) => SinkCall::SetCursor(p),
        RecordedCall::Clear => SinkCall::Clear,
        RecordedCall::Size => SinkCall::Size,
        RecordedCall::Flush => SinkCall::Flush,
    }
}

/// A sink that records calls instead of performing output. Its reported
/// viewport is the `area` field, which a caller may change between frames
/// to simulate a resize. If `fail_draw_on` is `Some(n)`, the `n`-th `draw`
/// call (counting from 1) reports an `IoError`; the call is still recorded,
/// since it was issued. `get_cursor` answers a fixed placeholder position,
/// the conformance mode allowed for sinks that cannot query real hardware.
pub struct SimSink {
    pub calls: Vec<RecordedCall>,
    pub area: Rect,
    pub fail_draw_on: Option<u32>,
    pub draws_seen: u32,
}

impl SimSink {
    /// A fresh sink with an empty log, reporting a viewport of the given
    /// size at origin (0, 0), with no failure scheduled.
    pub fn new(width: u16, height: u16) -> (s: SimSink)
        ensures
            s.log() == Seq::<SinkCall>::empty(),
            s.calls@.len() == 0,
            s.area == (Rect { x: 0, y: 0, width, height }),
            s.fail_draw_on is None,
            s.draws_seen == 0,
    {
        let s = SimSink {
            calls: Vec::new(),
            area: Rect { x: 0, y: 0, width, height },
            fail_draw_on: None,
            draws_seen: 0,
        };
        proof {
            assert(s.log() =~= Seq::<SinkCall>::empty());
        }
        s
    }

    /// Append one record to the log, leaving the rest of the sink alone.
    fn record(&mut self, c: RecordedCall)
        ensures
            final(self).log() == old(self).log().push(recorded_view(c)),
            final(self).area == old(self).area,
            final(self).fail_draw_on == old(self).fail_draw_on,
            final(self).draws_seen == old(self).draws_seen,
    {
        let ghost rec = recorded_view(c);
        self.calls.push(c);
        proof {
            assert(self.log() =~= old(self).log().push(rec));
        }
    }
}

impl Backend for SimSink {
    open spec fn log(&self) -> Seq<SinkCall> {
        self.calls@.map_values(|c: RecordedCall| recorded_view(c))
    }

    fn draw(&mut self, changes: Vec<Change>) -> (r: Result<(), IoError>)
        ensures
            final(self).area == old(self).area,
            final(self).fail_draw_on == old(self).fail_draw_on,
            final(self).draws_seen == (if old(self).draws_seen < u32::MAX {
                (old(self).draws_seen + 1) as u32
            } else {
                old(self).draws_seen
            }),
            r is Err <==> old(self).fail_draw_on == Some(final(self).draws_seen),
    {
        if self.draws_seen < u32::MAX {
            self.draws_seen = self.draws_seen + 1;
        }
        let failing: bool = match self.fail_draw_on {
            Some(n) => n == self.draws_seen,
            None => false,
        };
        self.record(RecordedCall::Draw(changes));
        if failing {
            Err(IoError {  })
        } else {
            Ok(())
        }
    }

    fn hide_cursor(&mut self) -> (r: Result<(), IoError>)
        ensures
            r is Ok,
            final(self).area == old(self).area,
            final(self).fail_draw_on == old(self).fail_draw_on,
            final(self).draws_seen == old(self).draws_seen,
    {
        self.record(RecordedCall::HideCursor);
        Ok(())
    }

    fn show_cursor(&mut self) -> (r: Result<(), IoError>)
        ensures
            r is Ok,
            final(self).area == old(self).area,
            final(self).fail_draw_on == old(self).fail_draw_on,
            final(self).draws_seen == old(self).draws_seen,
    {
        self.record(RecordedCall::ShowCursor);
        Ok(())
    }

    fn get_cursor(&mut self) -> (r: Result<Position, IoError>)
        ensures
            r == Ok::<Position, IoError>(Position { x: 100, y: 100 }),
            final(self).area == old(self).area,
            final(self).fail_draw_on == old(self).fail_draw_on,
            final(self).draws_seen == old(self).draws_seen,
    {
        self.record(RecordedCall::GetCursor);
        Ok(Position { x: 100, y: 100 })
    }

    fn set_cursor(&mut self, pos: Position) -> (r: Result<(), IoError>)
        ensures
            r is Ok,
            final(self).area == old(self).area,
            final(self).fail_draw_on == old(self).fail_draw_on,
            final(self).draws_seen == old(self).draws_seen,
    {
        self.record(RecordedCall::SetCursor(pos));
        Ok(())
    }

    fn clear(&mut self) -> (r: Result<(), IoError>)
        ensures
            r is Ok,
            final(self).area == old(self).area,
            final(self).fail_draw_on == old(self).fail_draw_on,
            final(self).draws_seen == old(self).draws_seen,
    {
        self.record(RecordedCall::Clear);
        Ok(())
    }

    fn size(&mut self) -> (r: Result<Rect, IoError>)
        ensures
            r == Ok::<Rect, IoError>(old(self).area),
            final(self).area == old(self).area,
            final(self).fail_draw_on == old(self).fail_draw_on,
            final(self).draws_seen == old(self).draws_seen,
    {
        let a = self.area;
        self.record(RecordedCall::Size);
        Ok(a)
    }

    fn flush(&mut self) -> (r: Result<(), IoError>)
        ensures
            r is Ok,
            final(self).area == old(self).area,
            final(self).fail_draw_on == old(self).fail_draw_on,
            final(self).draws_seen == old(self).draws_seen,
    {
        self.record(RecordedCall::Flush);
        Ok(())
    }
}

} // verus!
