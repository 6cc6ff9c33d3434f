//! The 64x32 monochrome pixel grid.

use vstd::prelude::*;

verus! {

/// Number of columns.
pub const WIDTH: usize = 64;

/// Number of rows.
pub const HEIGHT: usize = 32;

/// Number of cells, stored row-major.
pub const CELLS: usize = 2048;

/// Whether `(x, y)` names a cell of the grid.
pub open spec fn in_bounds(x: int, y: int) -> bool {
    0 <= x < 64 && 0 <= y < 32
}

/// Row-major index of the cell `(x, y)`.
pub open spec fn cell_index(x: int, y: int) -> int {
    y * 64 + x
}

/// The grid with every cell off.
pub open spec fn blank() -> Seq<bool> {
    Seq::new(2048, |i: int| false)
}

/// The bit read at `(x, y)`: the stored cell, or off outside the grid.
pub open spec fn cell(grid: Seq<bool>, x: int, y: int) -> bool {
    in_bounds(x, y) && grid[cell_index(x, y)]
}

/// The grid after writing `value` at `(x, y)`; writes outside the grid are dropped.
pub open spec fn put(grid: Seq<bool>, x: int, y: int, value: bool) -> Seq<bool> {
    if in_bounds(x, y) {
        grid.update(cell_index(x, y), value)
    } else {
        grid
    }
}

/// The display: 2048 cells, row by row, each on or off.
#[derive(Clone, Copy)]
pub struct Display {
    framebuffer: [bool; 2048],
}

impl View for Display {
    type V = Seq<bool>;

    closed spec fn view(&self) -> Seq<bool> {
        self.framebuffer@
    }
}

impl Display {
    /// Every display holds exactly 2048 cells.
    pub proof fn lemma_len(&self)
        ensures
            self@.len() == 2048,
    {
    }

    /// A display with every cell off.
    pub fn new() -> (d: Display)
        ensures
            d@ == blank(),
    {
        Display { framebuffer: [false; 2048] }
    }

    /// Writes `data` at `(x, y)`; a no-op outside the grid.
    pub fn set(&mut self, x: usize, y: usize, data: bool)
        ensures
            final(self)@ == put(old(self)@, x as int, y as int, data),
    {
        if x < WIDTH && y < HEIGHT {
            let idx: usize = y * WIDTH + x;
            self.framebuffer[idx] = data;
        }
    }

    /// Reads the cell at `(x, y)`; off outside the grid.
    pub fn get(&self, x: usize, y: usize) -> (lit: bool)
        ensures
            lit == cell(self@, x as int, y as int),
    {
        if x < WIDTH && y < HEIGHT {
            let idx: usize = y * WIDTH + x;
            self.framebuffer[idx]
        } else {
            false
        }
    }

    /// Turns every cell off.
    pub fn clear(&mut self)
        ensures
            final(self)@ == blank(),
    {
        let mut i: usize = 0;
        while i < CELLS
            invariant
                i <= 2048,
                forall|k: int| 0 <= k < i ==> !self.framebuffer@[k],
            decreases 2048 - i,
        {
            self.framebuffer[i] = false;
            i += 1;
        }
    }

    /// A copy of the cells in row-major order, independent of the display.
    pub fn dump(&self) -> (cells: Vec<bool>)
        ensures
            cells@ == self@,
            cells@.len() == 2048,
    {
        let mut cells: Vec<bool> = Vec::with_capacity(CELLS);
        let mut i: usize = 0;
        while i < CELLS
            invariant
                i <= 2048,
                cells@.len() == i,
                forall|k: int| 0 <= k < i ==> cells@[k] == self.framebuffer@[k],
            decreases 2048 - i,
        {
            cells.push(self.framebuffer[i]);
            i += 1;
        }
        cells
    }
}

} // verus!
