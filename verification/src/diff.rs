//! The diffing renderer: given the previously committed buffer and the newly
//! composed target buffer, compute the cells that must be re-sent to the
//! sink. When the two buffers cover the same viewport the change set is the
//! cells that differ, in row-major order; after a resize the whole target
//! viewport is re-sent, since no partial diff is meaningful across a resize.

use vstd::arithmetic::div_mod::lemma_fundamental_div_mod;
use vstd::arithmetic::div_mod::lemma_mod_bound;
use vstd::prelude::*;

use crate::buffer::Buffer;
use crate::cell::Cell;

verus! {

/// One cell update to be sent to a sink: the position and the new cell.
#[derive(Clone, Copy, Debug, PartialEq, Eq, Structural)]
pub struct Change {
    pub x: u16,
    pub y: u16,
    pub cell: Cell,
}

/// The linear row-major index that a change addresses in a buffer of the
/// given width.
pub open spec fn linear_of(width: int, c: Change) -> int {
    c.y as int * width + c.x as int
}

/// The change that re-sends the cell at linear index `i` of `t`.
pub open spec fn change_at(t: Buffer, i: int) -> Change {
    Change {
        x: (i % t.width as int) as u16,
        y: (i / t.width as int) as u16,
        cell: t.cells@[i],
    }
}

/// The changed cells among the first `n` positions, in row-major order.
pub open spec fn diff_upto(p: Buffer, t: Buffer, n: int) -> Seq<Change>
    decreases n,
{
    if n <= 0 {
        Seq::empty()
    } else if t.cells@[n - 1] != p.cells@[n - 1] {
        diff_upto(p, t, n - 1).push(change_at(t, n - 1))
    } else {
        diff_upto(p, t, n - 1)
    }
}

/// The cells that differ between two same-sized buffers, row-major.
pub open spec fn diff_spec(p: Buffer, t: Buffer) -> Seq<Change> {
    diff_upto(p, t, t.area_spec())
}

/// The first `n` cells of `t`, each as a change, row-major.
pub open spec fn full_upto(t: Buffer, n: int) -> Seq<Change>
    decreases n,
{
    if n <= 0 {
        Seq::empty()
    } else {
        full_upto(t, n - 1).push(change_at(t, n - 1))
    }
}

/// Every cell of the target viewport as a change, row-major.
pub open spec fn full_spec(t: Buffer) -> Seq<Change> {
    full_upto(t, t.area_spec())
}

/// What the renderer sends for previous buffer `p` and target buffer `t`:
/// the diff when the viewport kept its size, the whole target otherwise.
pub open spec fn changes_spec(p: Buffer, t: Buffer) -> Seq<Change> {
    if p.same_size(t) {
        diff_spec(p, t)
    } else {
        full_spec(t)
    }
}

/// Decoding a row-major index into column and row and back is the identity,
/// and the decoded position lies inside the viewport.
pub proof fn lemma_change_at_decode(t: Buffer, i: int)
    requires
        t.wf(),
        0 < t.width,
        0 <= i < t.area_spec(),
    ensures
        change_at(t, i).x < t.width,
        change_at(t, i).y < t.height,
        linear_of(t.width as int, change_at(t, i)) == i,
        change_at(t, i).cell == t.cells@[i],
{
    let w = t.width as int;
    lemma_mod_bound(i, w);
    lemma_fundamental_div_mod(i, w);
    assert(0 <= i / w < t.height as int) by (nonlinear_arith)
        requires
            0 < w,
            0 <= i < w * t.height as int,
            i == w * (i / w) + (i % w),
            0 <= i % w < w,
    ;
    assert(change_at(t, i).x as int == i % w);
    assert(change_at(t, i).y as int == i / w);
    assert((i / w) * w + (i % w) == i) by (nonlinear_arith)
        requires
            i == w * (i / w) + (i % w),
    ;
}

/// Every change listed by `diff_upto` re-sends a target cell that differs
/// from the previous buffer, the listed linear indices are strictly
/// increasing, and every differing position below `n` is listed.
pub proof fn lemma_diff_upto_characterize(p: Buffer, t: Buffer, n: int)
    requires
        p.wf(),
        t.wf(),
        p.same_size(t),
        0 <= n <= t.area_spec(),
    ensures
        forall|q: int|
            0 <= q < diff_upto(p, t, n).len() ==> {
                let c = #[trigger] diff_upto(p, t, n)[q];
                &&& 0 <= linear_of(t.width as int, c) < n
                &&& c == change_at(t, linear_of(t.width as int, c))
                &&& t.cells@[linear_of(t.width as int, c)] != p.cells@[linear_of(
                    t.width as int,
                    c,
                )]
            },
        forall|q1: int, q2: int|
            0 <= q1 < q2 < diff_upto(p, t, n).len() ==> linear_of(
                t.width as int,
                diff_upto(p, t, n)[q1],
            ) < linear_of(t.width as int, diff_upto(p, t, n)[q2]),
        forall|i: int|
            0 <= i < n && t.cells@[i] != p.cells@[i] ==> diff_upto(p, t, n).contains(
                change_at(t, i),
            ),
    decreases n,
{
    if n > 0 {
        lemma_diff_upto_characterize(p, t, n - 1);
        if t.width == 0 {
            assert(t.area_spec() == 0) by (nonlinear_arith)
                requires
                    t.width as int == 0,
                    t.area_spec() == t.width as int * t.height as int,
            ;
        }
        lemma_change_at_decode(t, n - 1);
        let prev = diff_upto(p, t, n - 1);
        let cur = diff_upto(p, t, n);
        if t.cells@[n - 1] != p.cells@[n - 1] {
            assert(cur == prev.push(change_at(t, n - 1)));
            assert forall|i: int|
                0 <= i < n && t.cells@[i] != p.cells@[i] implies cur.contains(
                change_at(t, i),
            ) by {
                if i < n - 1 {
                    let q = choose|q: int| 0 <= q < prev.len() && prev[q] == change_at(t, i);
                    assert(cur[q] == change_at(t, i));
                } else {
                    assert(cur[cur.len() - 1] == change_at(t, i));
                }
            }
        } else {
            assert forall|i: int|
                0 <= i < n && t.cells@[i] != p.cells@[i] implies cur.contains(
                change_at(t, i),
            ) by {
                assert(i < n - 1);
            }
        }
    }
}

/// No two changes of a diff address the same position: positions decode
/// injectively from their distinct linear indices.
pub proof fn lemma_diff_positions_distinct(p: Buffer, t: Buffer)
    requires
        p.wf(),
        t.wf(),
        p.same_size(t),
    ensures
        forall|q1: int, q2: int|
            0 <= q1 < q2 < diff_spec(p, t).len() ==> !(diff_spec(p, t)[q1].x == diff_spec(
                p,
                t,
            )[q2].x && diff_spec(p, t)[q1].y == diff_spec(p, t)[q2].y),
{
    lemma_diff_upto_characterize(p, t, t.area_spec());
    assert forall|q1: int, q2: int|
        0 <= q1 < q2 < diff_spec(p, t).len() implies !(diff_spec(p, t)[q1].x == diff_spec(
        p,
        t,
    )[q2].x && diff_spec(p, t)[q1].y == diff_spec(p, t)[q2].y) by {
        let c1 = diff_spec(p, t)[q1];
        let c2 = diff_spec(p, t)[q2];
        assert(linear_of(t.width as int, c1) < linear_of(t.width as int, c2));
    }
}

/// The full change set of a resize lists every cell of the new viewport,
/// in row-major order.
pub proof fn lemma_full_upto_characterize(t: Buffer, n: int)
    requires
        0 <= n,
    ensures
        full_upto(t, n).len() == n,
        forall|q: int| 0 <= q < n ==> #[trigger] full_upto(t, n)[q] == change_at(t, q),
    decreases n,
{
    if n > 0 {
        lemma_full_upto_characterize(t, n - 1);
    }
}

/// A full change set never repeats a position either: each cell of the new
/// viewport appears exactly once.
pub proof fn lemma_full_positions_distinct(t: Buffer)
    requires
        t.wf(),
    ensures
        forall|q1: int, q2: int|
            0 <= q1 < q2 < full_spec(t).len() ==> !(full_spec(t)[q1].x == full_spec(t)[q2].x
                && full_spec(t)[q1].y == full_spec(t)[q2].y),
{
    assert(t.area_spec() >= 0) by (nonlinear_arith)
        requires
            t.area_spec() == t.width as int * t.height as int,
            t.width as int >= 0,
            t.height as int >= 0,
    ;
    lemma_full_upto_characterize(t, t.area_spec());
    assert forall|q1: int, q2: int|
        0 <= q1 < q2 < full_spec(t).len() implies !(full_spec(t)[q1].x == full_spec(t)[q2].x
        && full_spec(t)[q1].y == full_spec(t)[q2].y) by {
        if t.width == 0 {
            assert(t.area_spec() == 0) by (nonlinear_arith)
                requires
                    t.width as int == 0,
                    t.area_spec() == t.width as int * t.height as int,
            ;
        }
        lemma_change_at_decode(t, q1);
        lemma_change_at_decode(t, q2);
        assert(linear_of(t.width as int, full_spec(t)[q1]) == q1);
        assert(linear_of(t.width as int, full_spec(t)[q2]) == q2);
    }
}

/// Whatever the renderer sends — a diff between same-sized frames, or the
/// full viewport after a resize — no two changes of one batch address the
/// same position: the sink sees each cell at most once per `draw` call.
pub proof fn lemma_changes_positions_distinct(p: Buffer, t: Buffer)
    requires
        p.wf(),
        t.wf(),
    ensures
        forall|q1: int, q2: int|
            0 <= q1 < q2 < changes_spec(p, t).len() ==> !(changes_spec(p, t)[q1].x == changes_spec(
                p,
                t,
            )[q2].x && changes_spec(p, t)[q1].y == changes_spec(p, t)[q2].y),
{
    if p.same_size(t) {
        lemma_diff_positions_distinct(p, t);
    } else {
        lemma_full_positions_distinct(t);
    }
}

/// After a resize, the renderer's change set is the full new viewport,
/// whatever the prior buffer held: one change per cell, row-major.
pub proof fn lemma_resize_full_viewport(p: Buffer, t: Buffer)
    requires
        t.wf(),
        !p.same_size(t),
    ensures
        changes_spec(p, t).len() == t.area_spec(),
        forall|q: int|
            0 <= q < t.area_spec() ==> #[trigger] changes_spec(p, t)[q] == change_at(t, q),
{
    assert(t.area_spec() >= 0) by (nonlinear_arith)
        requires
            t.area_spec() == t.width as int * t.height as int,
            t.width as int >= 0,
            t.height as int >= 0,
    ;
    lemma_full_upto_characterize(t, t.area_spec());
}

/// Equal buffers yield an empty diff.
pub proof fn lemma_diff_upto_equal(p: Buffer, t: Buffer, n: int)
    requires
        forall|i: int| 0 <= i < n ==> t.cells@[i] == p.cells@[i],
    ensures
        diff_upto(p, t, n).len() == 0,
    decreases n,
{
    if n > 0 {
        lemma_diff_upto_equal(p, t, n - 1);
    }
}

/// For consecutive frames with equal content, the diff is empty, so the
/// renderer has nothing to send.
pub proof fn lemma_diff_equal_buffers(p: Buffer, t: Buffer)
    requires
        t.wf(),
        p.same_size(t),
        p.cells@ == t.cells@,
    ensures
        diff_spec(p, t).len() == 0,
{
    lemma_diff_upto_equal(p, t, t.area_spec());
}

/// When exactly one cell changed between two same-sized buffers, the diff
/// contains exactly that one position with the new cell.
pub proof fn lemma_diff_upto_single(p: Buffer, t: Buffer, k: int, n: int)
    requires
        0 <= k,
        t.cells@[k] != p.cells@[k],
        forall|j: int| 0 <= j < n && j != k ==> t.cells@[j] == p.cells@[j],
        0 <= n,
    ensures
        diff_upto(p, t, n) == if n > k {
            seq![change_at(t, k)]
        } else {
            Seq::<Change>::empty()
        },
    decreases n,
{
    if n > 0 {
        lemma_diff_upto_single(p, t, k, n - 1);
        if n - 1 == k {
            assert(diff_upto(p, t, n) =~= seq![change_at(t, k)]);
        }
    }
}

/// A single-cell mutation at (x, y) diffs to exactly that one change.
pub proof fn lemma_diff_single_cell(p: Buffer, t: Buffer, x: int, y: int)
    requires
        p.wf(),
        t.wf(),
        p.same_size(t),
        t.pos_in_bounds(x, y),
        t.cell_at(x, y) != p.cell_at(x, y),
        forall|j: int|
            0 <= j < t.area_spec() && j != y * t.width as int + x ==> t.cells@[j] == p.cells@[j],
    ensures
        diff_spec(p, t).len() == 1,
        diff_spec(p, t)[0].x as int == x,
        diff_spec(p, t)[0].y as int == y,
        diff_spec(p, t)[0].cell == t.cell_at(x, y),
{
    let w = t.width as int;
    let k = y * w + x;
    crate::buffer::lemma_row_major_index_in_range(w, t.height as int, x, y);
    lemma_diff_upto_single(p, t, k, t.area_spec());
    lemma_change_at_decode(t, k);
    lemma_mod_bound(k, w);
    lemma_fundamental_div_mod(k, w);
    assert(k % w == x && k / w == y) by (nonlinear_arith)
        requires
            0 < w,
            0 <= x < w,
            0 <= y,
            k == y * w + x,
            k == w * (k / w) + k % w,
            0 <= k % w < w,
    ;
}

/// Compute the changed cells between two same-sized buffers, row-major.
pub fn diff(prev: &Buffer, target: &Buffer) -> (r: Vec<Change>)
    requires
        prev.wf(),
        target.wf(),
        prev.same_size(*target),
    ensures
        r@ == diff_spec(*prev, *target),
{
    let mut out: Vec<Change> = Vec::new();
    let w: u16 = target.width;
    let len: usize = target.cells.len();
    let mut i: usize = 0;
    while i < len
        invariant
            prev.wf(),
            target.wf(),
            prev.same_size(*target),
            w == target.width,
            len as int == target.area_spec(),
            i <= len,
            out@ == diff_upto(*prev, *target, i as int),
        decreases len - i,
    {
        if target.cells[i] != prev.cells[i] {
            proof {
                if w == 0 {
                    assert(target.area_spec() == 0) by (nonlinear_arith)
                        requires
                            target.width as int == 0,
                            target.area_spec() == target.width as int * target.height as int,
                    ;
                }
                lemma_change_at_decode(*target, i as int);
            }
            let x: u16 = (i % (w as usize)) as u16;
            let y: u16 = (i / (w as usize)) as u16;
            out.push(Change { x, y, cell: target.cells[i] });
        }
        i = i + 1;
    }
    out
}

/// List every cell of the target viewport as a change, row-major: the
/// change set used after a resize.
pub fn full_changes(target: &Buffer) -> (r: Vec<Change>)
    requires
        target.wf(),
    ensures
        r@ == full_spec(*target),
{
    let mut out: Vec<Change> = Vec::new();
    let w: u16 = target.width;
    let len: usize = target.cells.len();
    let mut i: usize = 0;
    while i < len
        invariant
            target.wf(),
            w == target.width,
            len as int == target.area_spec(),
            i <= len,
            out@ == full_upto(*target, i as int),
        decreases len - i,
    {
        proof {
            if w == 0 {
                assert(target.area_spec() == 0) by (nonlinear_arith)
                    requires
                        target.width as int == 0,
                        target.area_spec() == target.width as int * target.height as int,
                ;
            }
            lemma_change_at_decode(*target, i as int);
        }
        let x: u16 = (i % (w as usize)) as u16;
        let y: u16 = (i / (w as usize)) as u16;
        out.push(Change { x, y, cell: target.cells[i] });
        i = i + 1;
    }
    out
}

} // verus!
