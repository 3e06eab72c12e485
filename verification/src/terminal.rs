//! The frame loop driver. It owns the sink, the last committed buffer and
//! the cursor state, and drives the cycle: query the viewport, let the
//! composer fill a target buffer, send the diff, apply cursor requests,
//! flush. On shutdown it unconditionally issues one final `show_cursor`,
//! whatever happened before, so the cursor is never left invisible.

use vstd::prelude::*;

use crate::backend::Backend;
use crate::backend::IoError;
use crate::backend::SinkCall;
use crate::buffer::Buffer;
use crate::cell::Cell;
use crate::cell::Position;
use crate::cell::Rect;
use crate::compose::Composer;
use crate::compose::Directive;
use crate::cursor::CursorState;
use crate::cursor::Visibility;
use crate::cursor::clamp_position;
use crate::cursor::clamp_spec;
use crate::cursor::hide_emits;
use crate::cursor::hide_transition;
use crate::cursor::show_emits;
use crate::cursor::show_transition;
use crate::diff::Change;
use crate::diff::changes_spec;
use crate::diff::diff;
use crate::diff::full_changes;

verus! {

/// One sink history extends another: the later history replays the earlier
/// calls unchanged and may append more. Every driver operation only ever
/// extends the sink's history.
pub open spec fn extends(pre: Seq<SinkCall>, post: Seq<SinkCall>) -> bool {
    pre.len() <= post.len() && forall|i: int| 0 <= i < pre.len() ==> post[i] == pre[i]
}

/// The calls a frame's draw phase issues on top of `pre`: one `Draw` with
/// the whole change set, or nothing at all when the set is empty.
pub open spec fn draw_calls(pre: Seq<SinkCall>, cs: Seq<Change>) -> Seq<SinkCall> {
    if cs.len() > 0 {
        pre.push(SinkCall::Draw(cs))
    } else {
        pre
    }
}

/// The call a directive's cursor-move request issues on top of `pre`: the
/// requested position clamped to the viewport, or nothing when no move was
/// asked for.
pub open spec fn move_calls(pre: Seq<SinkCall>, d: Directive, area: Rect) -> Seq<SinkCall> {
    match d.move_to {
        Some(p) => pre.push(SinkCall::SetCursor(clamp_spec(p, area))),
        None => pre,
    }
}

/// The call a directive's visibility request issues on top of `pre`, given
/// the cursor visibility tracked when it is applied: the state machine
/// stays silent unless the state actually flips.
pub open spec fn vis_calls(pre: Seq<SinkCall>, d: Directive, vis: Visibility) -> Seq<SinkCall> {
    match d.show {
        Some(v) => if v {
            if show_emits(vis) {
                pre.push(SinkCall::ShowCursor)
            } else {
                pre
            }
        } else {
            if hide_emits(vis) {
                pre.push(SinkCall::HideCursor)
            } else {
                pre
            }
        },
        None => pre,
    }
}

/// The tracked cursor state after a directive is applied at viewport
/// `area`, starting from state `c`.
pub open spec fn directive_cursor(c: CursorState, d: Directive, area: Rect) -> CursorState {
    CursorState {
        vis: match d.show {
            Some(v) => if v {
                Visibility::Shown
            } else {
                Visibility::Hidden
            },
            None => c.vis,
        },
        pos: match d.move_to {
            Some(p) => clamp_spec(p, area),
            None => c.pos,
        },
    }
}

/// How the loop's outcome and the shutdown restoration's outcome compose
/// into what `run` returns: a loop error is always the primary error; a
/// restoration failure is attached to it, never allowed to mask it, and
/// becomes primary only when the loop itself succeeded.
pub open spec fn shutdown_report(loop_err: Option<IoError>, restore_err: Option<IoError>) -> Result<
    (),
    DriverError,
> {
    match loop_err {
        None => match restore_err {
            None => Ok(()),
            Some(re) => Err(DriverError { primary: re, restore_failure: None }),
        },
        Some(e) => match restore_err {
            None => Err(DriverError { primary: e, restore_failure: None }),
            Some(re) => Err(DriverError { primary: e, restore_failure: Some(re) }),
        },
    }
}

/// What the frame loop reports when it fails: the error that ended the
/// loop, and, if the final cursor restoration failed as well, that failure
/// attached — reported, never allowed to mask the primary error.
#[derive(Clone, Copy, Debug, PartialEq, Eq, Structural)]
pub struct DriverError {
    pub primary: IoError,
    pub restore_failure: Option<IoError>,
}

/// The frame loop driver: exclusive owner of the sink, of the previously
/// committed buffer, and of the cursor state.
pub struct Terminal<B: Backend> {
    pub backend: B,
    pub prev: Buffer,
    pub cursor: CursorState,
    pub area: Rect,
}

impl<B: Backend> Terminal<B> {
    pub open spec fn wf(self) -> bool {
        self.prev.wf()
    }

    /// A successful frame from state `self` to state `post`, whose composer
    /// answered directive `d`: the committed buffer is the composed target,
    /// sized to the viewport the frame queried; the sink history grew by
    /// exactly the size query, the change set between the old and the new
    /// committed buffer (skipped when empty), the directive's cursor calls,
    /// and the flush; and the tracked cursor followed the directive.
    pub open spec fn frame_ok_shape(self, post: Self, d: Directive) -> bool {
        let cs = changes_spec(self.prev, post.prev);
        &&& post.prev.wf()
        &&& post.prev.width == post.area.width
        &&& post.prev.height == post.area.height
        &&& post.backend.log() == vis_calls(
            move_calls(draw_calls(self.backend.log().push(SinkCall::Size), cs), d, post.area),
            d,
            self.cursor.vis,
        ).push(SinkCall::Flush)
        &&& post.cursor == directive_cursor(self.cursor, d, post.area)
    }

    /// A failed frame from state `self` to state `post`: the frame stopped
    /// at the sink call that failed. `t` is the composed target and `d` the
    /// composer's directive, where the frame got far enough to have them.
    /// Whatever the failing call, the committed buffer is the last content
    /// whose draw succeeded — `t` once its changes were sent, the old
    /// buffer otherwise — and the tracked cursor reflects exactly the
    /// cursor calls that were issued.
    pub open spec fn frame_err_shape(self, post: Self, d: Directive, t: Buffer) -> bool {
        let pre_log = self.backend.log();
        let cs = changes_spec(self.prev, t);
        ||| {
            // The size query failed: it was the only call issued.
            &&& post.backend.log() == pre_log.push(SinkCall::Size)
            &&& post.prev == self.prev
            &&& post.cursor == self.cursor
            &&& post.area == self.area
        }
        ||| {
            // The draw failed: the batch was issued but not committed.
            &&& t.wf()
            &&& t.width == post.area.width
            &&& t.height == post.area.height
            &&& cs.len() > 0
            &&& post.backend.log() == pre_log.push(SinkCall::Size).push(SinkCall::Draw(cs))
            &&& post.prev == self.prev
            &&& post.cursor == self.cursor
        }
        ||| {
            // The cursor move failed, after the target was committed.
            &&& t.wf()
            &&& t.width == post.area.width
            &&& t.height == post.area.height
            &&& post.prev == t
            &&& post.backend.log() == move_calls(
                draw_calls(pre_log.push(SinkCall::Size), cs),
                d,
                post.area,
            )
            &&& post.cursor.vis == self.cursor.vis
            &&& (match d.move_to {
                Some(p) => post.cursor.pos == clamp_spec(p, post.area),
                None => false,
            })
        }
        ||| {
            // The visibility call failed; it was actually emitted, so the
            // requested state flips the tracked one.
            &&& t.wf()
            &&& t.width == post.area.width
            &&& t.height == post.area.height
            &&& post.prev == t
            &&& post.backend.log() == vis_calls(
                move_calls(draw_calls(pre_log.push(SinkCall::Size), cs), d, post.area),
                d,
                self.cursor.vis,
            )
            &&& (match d.show {
                Some(v) => if v {
                    show_emits(self.cursor.vis)
                } else {
                    hide_emits(self.cursor.vis)
                },
                None => false,
            })
            &&& post.cursor == directive_cursor(self.cursor, d, post.area)
        }
        ||| {
            // The flush failed; everything before it took effect.
            &&& t.wf()
            &&& t.width == post.area.width
            &&& t.height == post.area.height
            &&& post.prev == t
            &&& post.backend.log() == vis_calls(
                move_calls(draw_calls(pre_log.push(SinkCall::Size), cs), d, post.area),
                d,
                self.cursor.vis,
            ).push(SinkCall::Flush)
            &&& post.cursor == directive_cursor(self.cursor, d, post.area)
        }
    }

    /// Take ownership of a sink, query its viewport once, and start from an
    /// all-blank committed buffer with the cursor shown — the typical
    /// terminal default.
    pub fn new(backend: B) -> (r: Result<Terminal<B>, IoError>)
        ensures
            (match r {
                Ok(t) => {
                    &&& t.wf()
                    &&& t.cursor.vis == Visibility::Shown
                    &&& t.cursor.pos == (Position { x: 0, y: 0 })
                    &&& t.backend.log() == backend.log().push(SinkCall::Size)
                    &&& t.prev.width == t.area.width
                    &&& t.prev.height == t.area.height
                    &&& forall|i: int|
                        0 <= i < t.prev.cells@.len() ==> t.prev.cells@[i] == Cell::blank_spec()
                },
                Err(_) => true,
            }),
    {
        let mut b = backend;
        match b.size() {
            Ok(area) => Ok(
                Terminal {
                    backend: b,
                    prev: Buffer::new(area.width, area.height),
                    cursor: CursorState { vis: Visibility::Shown, pos: Position { x: 0, y: 0 } },
                    area,
                },
            ),
            Err(e) => Err(e),
        }
    }

    /// Send the target buffer's changes against the committed buffer: the
    /// row-major diff when the viewport kept its size, the whole viewport
    /// after a resize. An empty change set skips the `draw` call entirely.
    /// On success the target becomes the committed buffer; on a failed
    /// `draw` the committed buffer is left untouched, so the next frame
    /// diffs against the last content actually on screen.
    pub fn render(&mut self, target: Buffer) -> (r: Result<(), IoError>)
        requires
            old(self).wf(),
            target.wf(),
        ensures
            final(self).wf(),
            final(self).cursor == old(self).cursor,
            final(self).area == old(self).area,
            ({
                let cs = changes_spec(old(self).prev, target);
                &&& (cs.len() == 0 ==> r is Ok && final(self).prev == target && final(self).backend.log() == old(self).backend.log())
                &&& (cs.len() > 0 ==> final(self).backend.log() == old(self).backend.log().push(
                    SinkCall::Draw(cs),
                ) && (r is Ok ==> final(self).prev == target) && (r is Err ==> final(self).prev
                    == old(self).prev))
            }),
    {
        let same = self.prev.width == target.width && self.prev.height == target.height;
        let changes: Vec<Change> = if same {
            diff(&self.prev, &target)
        } else {
            full_changes(&target)
        };
        if changes.len() == 0 {
            self.prev = target;
            Ok(())
        } else {
            match self.backend.draw(changes) {
                Ok(()) => {
                    self.prev = target;
                    Ok(())
                },
                Err(e) => Err(e),
            }
        }
    }

    /// Force the cursor shown. The underlying `show_cursor` call is issued
    /// only when the cursor was hidden; a repeated `show` stays silent.
    pub fn show_cursor(&mut self) -> (r: Result<(), IoError>)
        ensures
            final(self).prev == old(self).prev,
            final(self).area == old(self).area,
            final(self).cursor.pos == old(self).cursor.pos,
            final(self).cursor.vis == show_transition(old(self).cursor.vis),
            show_emits(old(self).cursor.vis) ==> final(self).backend.log() == old(self).backend.log().push(SinkCall::ShowCursor),
            !show_emits(old(self).cursor.vis) ==> final(self).backend.log() == old(self).backend.log() && r is Ok,
    {
        match self.cursor.vis {
            Visibility::Shown => Ok(()),
            Visibility::Hidden => {
                self.cursor.vis = Visibility::Shown;
                self.backend.show_cursor()
            },
        }
    }

    /// Force the cursor hidden; silent when it already was.
    pub fn hide_cursor(&mut self) -> (r: Result<(), IoError>)
        ensures
            final(self).prev == old(self).prev,
            final(self).area == old(self).area,
            final(self).cursor.pos == old(self).cursor.pos,
            final(self).cursor.vis == hide_transition(old(self).cursor.vis),
            hide_emits(old(self).cursor.vis) ==> final(self).backend.log() == old(self).backend.log().push(SinkCall::HideCursor),
            !hide_emits(old(self).cursor.vis) ==> final(self).backend.log() == old(self).backend.log() && r is Ok,
    {
        match self.cursor.vis {
            Visibility::Hidden => Ok(()),
            Visibility::Shown => {
                self.cursor.vis = Visibility::Hidden;
                self.backend.hide_cursor()
            },
        }
    }

    /// Move the cursor, clamping the requested position to the last
    /// reported viewport: an out-of-bounds request is pulled to the nearest
    /// edge rather than rejected, and the sink is never handed a position
    /// outside a non-empty viewport. The move is always forwarded,
    /// whatever the visibility.
    pub fn move_to(&mut self, pos: Position) -> (r: Result<(), IoError>)
        ensures
            final(self).prev == old(self).prev,
            final(self).area == old(self).area,
            final(self).cursor.vis == old(self).cursor.vis,
            final(self).cursor.pos == clamp_spec(pos, old(self).area),
            final(self).backend.log() == old(self).backend.log().push(
                SinkCall::SetCursor(clamp_spec(pos, old(self).area)),
            ),
    {
        let p = clamp_position(pos, self.area);
        self.cursor.pos = p;
        self.backend.set_cursor(p)
    }

    /// Ask the sink for its cursor position; the driver's own state is
    /// untouched.
    pub fn get_cursor(&mut self) -> (r: Result<Position, IoError>)
        ensures
            final(self).prev == old(self).prev,
            final(self).area == old(self).area,
            final(self).cursor == old(self).cursor,
            final(self).backend.log() == old(self).backend.log().push(SinkCall::GetCursor),
    {
        self.backend.get_cursor()
    }

    /// Clear the whole viewport. On success the committed buffer is reset
    /// to all-blank, so the next diff is computed against the blank screen
    /// the sink now shows.
    pub fn clear(&mut self) -> (r: Result<(), IoError>)
        requires
            old(self).wf(),
        ensures
            final(self).wf(),
            final(self).cursor == old(self).cursor,
            final(self).area == old(self).area,
            final(self).backend.log() == old(self).backend.log().push(SinkCall::Clear),
            final(self).prev.width == old(self).prev.width,
            final(self).prev.height == old(self).prev.height,
            r is Ok ==> forall|i: int|
                0 <= i < final(self).prev.cells@.len() ==> final(self).prev.cells@[i]
                    == Cell::blank_spec(),
            r is Err ==> final(self).prev == old(self).prev,
    {
        match self.backend.clear() {
            Ok(()) => {
                self.prev = Buffer::new(self.prev.width, self.prev.height);
                Ok(())
            },
            Err(e) => Err(e),
        }
    }

    /// The unconditional shutdown restoration: issue exactly one
    /// `show_cursor`, whatever state the cursor was tracked in, and leave
    /// it tracked as shown.
    pub fn restore(&mut self) -> (r: Result<(), IoError>)
        ensures
            final(self).prev == old(self).prev,
            final(self).area == old(self).area,
            final(self).cursor.pos == old(self).cursor.pos,
            final(self).cursor.vis == Visibility::Shown,
            final(self).backend.log() == old(self).backend.log().push(SinkCall::ShowCursor),
    {
        self.cursor.vis = Visibility::Shown;
        self.backend.show_cursor()
    }

    /// One full frame: query the viewport, let the composer fill a blank
    /// target sized to it, send the changes, apply the composer's cursor
    /// requests, flush. Returns whether the composer asked to stop. A
    /// successful frame has exactly the shape of `frame_ok_shape`: its draw
    /// batch is the change set between the old and the new committed
    /// buffer, skipped when empty, and the cursor follows the directive. A
    /// failed frame stops at the failing call, with the committed buffer
    /// and the tracked cursor reflecting exactly what succeeded before it
    /// (`frame_err_shape`); nothing is retried.
    pub fn frame<C: Composer>(&mut self, composer: &mut C) -> (r: Result<bool, IoError>)
        requires
            old(self).wf(),
        ensures
            final(self).wf(),
            extends(old(self).backend.log(), final(self).backend.log()),
            final(self).backend.log().len() > old(self).backend.log().len(),
            final(self).backend.log()[old(self).backend.log().len() as int] == SinkCall::Size,
            r matches Ok(stop) ==> exists|d: Directive|
                #[trigger] old(self).frame_ok_shape(*final(self), d) && stop == d.stop,
            r is Err ==> exists|d: Directive, t: Buffer|
                #[trigger] old(self).frame_err_shape(*final(self), d, t),
    {
        let ghost dummy_d = Directive { show: None, move_to: None, stop: false };
        let area = match self.backend.size() {
            Ok(a) => a,
            Err(e) => {
                proof {
                    assert(old(self).frame_err_shape(*self, dummy_d, old(self).prev));
                }
                return Err(e);
            },
        };
        self.area = area;
        let mut target = Buffer::new(area.width, area.height);
        let d = composer.compose(area, &mut target);
        let ghost t = target;
        let ghost cs = changes_spec(old(self).prev, t);
        let ghost log_after_draw = draw_calls(
            old(self).backend.log().push(SinkCall::Size),
            cs,
        );
        match self.render(target) {
            Ok(()) => (),
            Err(e) => {
                proof {
                    assert(old(self).frame_err_shape(*self, dummy_d, t));
                }
                return Err(e);
            },
        }
        if let Some(pos) = d.move_to {
            match self.move_to(pos) {
                Ok(()) => (),
                Err(e) => {
                    proof {
                        assert(self.backend.log() == move_calls(log_after_draw, d, self.area));
                        assert(old(self).frame_err_shape(*self, d, t));
                    }
                    return Err(e);
                },
            }
        }
        proof {
            assert(self.backend.log() == move_calls(log_after_draw, d, self.area));
        }
        let ghost log_after_move = self.backend.log();
        if let Some(v) = d.show {
            let cr = if v {
                self.show_cursor()
            } else {
                self.hide_cursor()
            };
            match cr {
                Ok(()) => (),
                Err(e) => {
                    proof {
                        assert(self.backend.log() == vis_calls(
                            log_after_move,
                            d,
                            old(self).cursor.vis,
                        ));
                        assert(old(self).frame_err_shape(*self, d, t));
                    }
                    return Err(e);
                },
            }
        }
        proof {
            assert(self.backend.log() == vis_calls(log_after_move, d, old(self).cursor.vis));
            assert(self.cursor == directive_cursor(old(self).cursor, d, self.area));
        }
        match self.backend.flush() {
            Ok(()) => {
                proof {
                    assert(old(self).frame_ok_shape(*self, d));
                }
                Ok(d.stop)
            },
            Err(e) => {
                proof {
                    assert(old(self).frame_err_shape(*self, d, t));
                }
                Err(e)
            },
        }
    }

    /// Consecutive equal frames stay silent on the wire: when a successful
    /// frame's composed target equals the committed buffer cell for cell,
    /// its change set is empty, so the frame's history holds no draw call —
    /// only the size query, the directive's cursor calls, and the flush.
    pub proof fn lemma_frame_unchanged_skips_draw(pre: Self, post: Self, d: Directive)
        requires
            pre.frame_ok_shape(post, d),
            pre.prev.same_size(post.prev),
            post.prev.cells@ == pre.prev.cells@,
        ensures
            changes_spec(pre.prev, post.prev).len() == 0,
            post.backend.log() == vis_calls(
                move_calls(pre.backend.log().push(SinkCall::Size), d, post.area),
                d,
                pre.cursor.vis,
            ).push(SinkCall::Flush),
    {
        crate::diff::lemma_diff_equal_buffers(pre.prev, post.prev);
    }

    /// A successful frame whose composed target differs from the committed
    /// buffer at exactly one in-bounds position draws exactly that one
    /// cell: its batch is the single change carrying the new cell.
    pub proof fn lemma_frame_single_cell_draw(pre: Self, post: Self, d: Directive, x: int, y: int)
        requires
            pre.wf(),
            pre.frame_ok_shape(post, d),
            pre.prev.same_size(post.prev),
            post.prev.pos_in_bounds(x, y),
            post.prev.cell_at(x, y) != pre.prev.cell_at(x, y),
            forall|j: int|
                0 <= j < post.prev.area_spec() && j != y * post.prev.width as int + x
                    ==> post.prev.cells@[j] == pre.prev.cells@[j],
        ensures
            changes_spec(pre.prev, post.prev).len() == 1,
            changes_spec(pre.prev, post.prev)[0].x as int == x,
            changes_spec(pre.prev, post.prev)[0].y as int == y,
            changes_spec(pre.prev, post.prev)[0].cell == post.prev.cell_at(x, y),
            post.backend.log() == vis_calls(
                move_calls(
                    pre.backend.log().push(SinkCall::Size).push(
                        SinkCall::Draw(changes_spec(pre.prev, post.prev)),
                    ),
                    d,
                    post.area,
                ),
                d,
                pre.cursor.vis,
            ).push(SinkCall::Flush),
    {
        crate::diff::lemma_diff_single_cell(pre.prev, post.prev, x, y);
    }

    /// A successful frame across a resize re-sends the whole new viewport:
    /// its change set lists every cell of the new committed buffer,
    /// row-major, whatever the prior content was.
    pub proof fn lemma_frame_resize_full(pre: Self, post: Self, d: Directive)
        requires
            pre.frame_ok_shape(post, d),
            !pre.prev.same_size(post.prev),
        ensures
            changes_spec(pre.prev, post.prev).len() == post.prev.area_spec(),
            forall|q: int|
                0 <= q < post.prev.area_spec() ==> #[trigger] changes_spec(
                    pre.prev,
                    post.prev,
                )[q] == crate::diff::change_at(post.prev, q),
    {
        crate::diff::lemma_resize_full_viewport(pre.prev, post.prev);
    }

    /// Across two consecutive successful frames that both request the
    /// cursor shown, the second request is a no-op on the wire: the first
    /// frame leaves the tracked cursor shown, so the second frame's
    /// visibility step emits nothing.
    pub proof fn lemma_frames_show_idempotent(pre: Self, mid: Self, post: Self, d1: Directive, d2: Directive)
        requires
            pre.frame_ok_shape(mid, d1),
            mid.frame_ok_shape(post, d2),
            d1.show == Some(true),
            d2.show == Some(true),
        ensures
            mid.cursor.vis == Visibility::Shown,
            !show_emits(mid.cursor.vis),
            forall|s: Seq<SinkCall>| #[trigger] vis_calls(s, d2, mid.cursor.vis) == s,
    {
    }

    /// Drive frames until the composer asks to stop, the frame budget runs
    /// out, or a frame fails — then always perform the shutdown
    /// restoration, so the very last call issued to the sink is one
    /// `show_cursor`, appended exactly once by the restoration itself. With
    /// any budget at all, a first frame is attempted. The returned value
    /// composes the loop's outcome and the restoration's outcome by
    /// `shutdown_report`: a loop failure stays the primary error, and a
    /// restoration failure is attached to it, never in place of it.
    pub fn run<C: Composer>(&mut self, composer: &mut C, max_frames: u32) -> (r: Result<
        (),
        DriverError,
    >)
        requires
            old(self).wf(),
        ensures
            final(self).wf(),
            final(self).cursor.vis == Visibility::Shown,
            extends(old(self).backend.log(), final(self).backend.log()),
            final(self).backend.log().len() > old(self).backend.log().len(),
            final(self).backend.log().last() == SinkCall::ShowCursor,
            max_frames == 0 ==> final(self).backend.log() == old(self).backend.log().push(
                SinkCall::ShowCursor,
            ),
            max_frames > 0 ==> final(self).backend.log().len() > old(self).backend.log().len() + 1
                && final(self).backend.log()[old(self).backend.log().len() as int]
                == SinkCall::Size,
            exists|loop_err: Option<IoError>, restore_err: Option<IoError>|
                r == #[trigger] shutdown_report(loop_err, restore_err) && (max_frames == 0
                    ==> loop_err is None),
    {
        let mut i: u32 = 0;
        let mut failure: Option<IoError> = None;
        let mut stopped: bool = false;
        while i < max_frames && !stopped && failure.is_none()
            invariant
                self.wf(),
                extends(old(self).backend.log(), self.backend.log()),
                i <= max_frames,
                i == 0 ==> self.backend.log() == old(self).backend.log() && failure is None
                    && !stopped,
                i > 0 ==> self.backend.log().len() > old(self).backend.log().len()
                    && self.backend.log()[old(self).backend.log().len() as int] == SinkCall::Size,
            decreases max_frames - i,
        {
            match self.frame(composer) {
                Ok(stop) => {
                    stopped = stop;
                },
                Err(e) => {
                    failure = Some(e);
                },
            }
            i = i + 1;
        }
        let restored = self.restore();
        let ghost loop_err = failure;
        let ghost restore_err = (match restored {
            Ok(()) => Option::<IoError>::None,
            Err(x) => Option::Some(x),
        });
        let out: Result<(), DriverError> = match failure {
            None => match restored {
                Ok(()) => Ok(()),
                Err(re) => Err(DriverError { primary: re, restore_failure: None }),
            },
            Some(e) => match restored {
                Ok(()) => Err(DriverError { primary: e, restore_failure: None }),
                Err(re) => Err(DriverError { primary: e, restore_failure: Some(re) }),
            },
        };
        proof {
            assert(out == shutdown_report(loop_err, restore_err));
        }
        out
    }
}

} // verus!
