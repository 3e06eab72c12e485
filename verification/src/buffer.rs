//! The cell buffer: a 2-D grid of cells stored in row-major order, sized
//! exactly to the current viewport. The driver keeps one previous buffer and
//! builds one target buffer per frame.

use vstd::prelude::*;

use crate::cell::Cell;

verus! {

/// A width-by-height grid of cells, stored row-major: the cell at column `x`
/// of row `y` sits at linear index `y * width + x`.
pub struct Buffer {
    pub width: u16,
    pub height: u16,
    pub cells: Vec<Cell>,
}

impl Buffer {
    /// The buffer holds exactly one cell per position of its viewport.
    pub open spec fn wf(self) -> bool {
        self.cells@.len() == self.width as int * self.height as int
    }

    pub open spec fn area_spec(self) -> int {
        self.width as int * self.height as int
    }

    /// The cell at column `x` of row `y`.
    pub open spec fn cell_at(self, x: int, y: int) -> Cell {
        self.cells@[y * self.width as int + x]
    }

    pub open spec fn pos_in_bounds(self, x: int, y: int) -> bool {
        0 <= x < self.width as int && 0 <= y < self.height as int
    }

    /// Both buffers cover the same viewport dimensions.
    pub open spec fn same_size(self, other: Buffer) -> bool {
        self.width == other.width && self.height == other.height
    }

    /// A buffer sized to the given viewport, every cell blank.
    pub fn new(width: u16, height: u16) -> (b: Buffer)
        ensures
            b.wf(),
            b.width == width,
            b.height == height,
            forall|i: int| 0 <= i < b.cells@.len() ==> b.cells@[i] == Cell::blank_spec(),
    {
        proof {
            lemma_viewport_area_fits(width as int, height as int);
        }
        let len: usize = (width as usize) * (height as usize);
        let mut cells: Vec<Cell> = Vec::new();
        let mut i: usize = 0;
        while i < len
            invariant
                i <= len,
                len as int == width as int * height as int,
                cells@.len() == i as int,
                forall|j: int| 0 <= j < i as int ==> cells@[j] == Cell::blank_spec(),
            decreases len - i,
        {
            cells.push(Cell::blank());
            i = i + 1;
        }
        Buffer { width, height, cells }
    }

    /// Read the cell at a position.
    pub fn get(&self, x: u16, y: u16) -> (c: Cell)
        requires
            self.wf(),
            self.pos_in_bounds(x as int, y as int),
        ensures
            c == self.cell_at(x as int, y as int),
    {
        proof {
            lemma_viewport_area_fits(self.width as int, self.height as int);
            lemma_row_major_index_in_range(
                self.width as int,
                self.height as int,
                x as int,
                y as int,
            );
        }
        let idx: usize = (y as usize) * (self.width as usize) + (x as usize);
        self.cells[idx]
    }

    /// Replace the cell at a position; every other cell is kept.
    pub fn set(&mut self, x: u16, y: u16, c: Cell)
        requires
            old(self).wf(),
            old(self).pos_in_bounds(x as int, y as int),
        ensures
            final(self).wf(),
            final(self).width == old(self).width,
            final(self).height == old(self).height,
            final(self).cells@ == old(self).cells@.update(
                y as int * old(self).width as int + x as int,
                c,
            ),
            final(self).cell_at(x as int, y as int) == c,
    {
        proof {
            lemma_viewport_area_fits(self.width as int, self.height as int);
            lemma_row_major_index_in_range(
                self.width as int,
                self.height as int,
                x as int,
                y as int,
            );
        }
        let idx: usize = (y as usize) * (self.width as usize) + (x as usize);
        self.cells.set(idx, c);
    }

    /// Overwrite every cell of the buffer with the same cell.
    pub fn fill(&mut self, c: Cell)
        requires
            old(self).wf(),
        ensures
            final(self).wf(),
            final(self).width == old(self).width,
            final(self).height == old(self).height,
            final(self).cells@.len() == old(self).cells@.len(),
            forall|i: int| 0 <= i < final(self).cells@.len() ==> final(self).cells@[i] == c,
    {
        let len: usize = self.cells.len();
        let mut i: usize = 0;
        while i < len
            invariant
                i <= len,
                self.cells@.len() == len as int,
                self.width == old(self).width,
                self.height == old(self).height,
                len as int == old(self).width as int * old(self).height as int,
                forall|j: int| 0 <= j < i as int ==> self.cells@[j] == c,
            decreases len - i,
        {
            self.cells.set(i, c);
            i = i + 1;
        }
    }
}

/// The cell count of any viewport fits comfortably in a 32-bit word, since
/// both sides are 16-bit values.
pub proof fn lemma_viewport_area_fits(width: int, height: int)
    requires
        0 <= width <= 0xFFFF,
        0 <= height <= 0xFFFF,
    ensures
        width * height <= 0xFFFE0001,
{
    assert(width * height <= 0xFFFE0001) by (nonlinear_arith)
        requires
            0 <= width <= 0xFFFF,
            0 <= height <= 0xFFFF,
    ;
}

/// A position inside the viewport maps to a linear index inside the cell
/// vector.
pub proof fn lemma_row_major_index_in_range(width: int, height: int, x: int, y: int)
    requires
        0 <= x < width,
        0 <= y < height,
    ensures
        0 <= y * width + x < width * height,
{
    assert(y * width + x < width * height) by (nonlinear_arith)
        requires
            0 <= x < width,
            0 <= y < height,
    ;
    assert(0 <= y * width + x) by (nonlinear_arith)
        requires
            0 <= x,
            0 <= y,
            0 < width,
    ;
}

} // verus!
