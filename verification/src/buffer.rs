//! The terminal screen buffer: a `rows x cols` grid of cells, a cursor, a
//! bounded scrollback of evicted rows, and the current selection range.
//!
//! Selection coordinates live in a unified space: row 0 is the oldest
//! scrollback row, and rows at or past the scrollback length index into the
//! live grid.

use vstd::prelude::*;

use crate::cell::TerminalCell;

verus! {

/// A selection range in unified coordinates, possibly inverted (the anchor
/// may lie after the end point).
#[derive(Clone, Copy, Debug, Default, PartialEq, Eq, Structural)]
pub struct SelectionRange {
    pub start_row: usize,
    pub start_col: usize,
    pub end_row: usize,
    pub end_col: usize,
}

impl SelectionRange {
    /// The ordered form of a possibly inverted range: rows ascending, and
    /// columns ascending when both points share a row.  A multi-row range
    /// that is already in row order keeps its columns as they are.
    pub open spec fn normalize_spec(self) -> SelectionRange {
        if self.start_row < self.end_row {
            self
        } else if self.start_row == self.end_row {
            if self.start_col <= self.end_col {
                self
            } else {
                SelectionRange {
                    start_row: self.start_row,
                    start_col: self.end_col,
                    end_row: self.end_row,
                    end_col: self.start_col,
                }
            }
        } else {
            SelectionRange {
                start_row: self.end_row,
                start_col: self.end_col,
                end_row: self.start_row,
                end_col: self.start_col,
            }
        }
    }

    /// Whether a normalized range covers no cell at all: both endpoints are
    /// the same point.
    pub open spec fn is_empty_spec(self) -> bool {
        self.start_row == self.end_row && self.start_col == self.end_col
    }

    /// Whether a normalized range covers the cell at unified row `r`,
    /// column `c`, on a grid `cols` columns wide.  Rows before the last one
    /// stop at column `cols - 1`; the last row runs to the range's end
    /// column.
    pub open spec fn covers_spec(self, r: int, c: int, cols: int) -> bool {
        &&& self.start_row <= r <= self.end_row
        &&& (r > self.start_row || c >= self.start_col)
        &&& (r < self.end_row || c <= self.end_col)
        &&& (r == self.end_row || c <= cols - 1)
    }
}

/// A sequence of `n` default cells.
pub open spec fn default_cells_spec(n: int) -> Seq<TerminalCell> {
    Seq::new(n as nat, |i: int| TerminalCell::default_spec())
}

/// The terminal grid with its cursor, scrollback and selection.
#[derive(Clone, Debug)]
pub struct TerminalBuffer {
    pub rows: usize,
    pub cols: usize,
    pub cells: Vec<TerminalCell>,
    pub cursor_row: usize,
    pub cursor_col: usize,
    pub history: Vec<Vec<TerminalCell>>,
    pub max_history: usize,
    pub selection: Option<SelectionRange>,
}

impl TerminalBuffer {
    /// The structural invariant: a non-degenerate grid whose cell vector
    /// matches its dimensions, a cursor inside the grid, and a scrollback
    /// within its bound whose rows are never empty.
    pub open spec fn wf(self) -> bool {
        &&& self.rows >= 1
        &&& self.cols >= 1
        &&& self.rows * self.cols <= usize::MAX
        &&& self.cells@.len() == self.rows * self.cols
        &&& self.cursor_row < self.rows
        &&& self.cursor_col < self.cols
        &&& self.max_history >= 1
        &&& self.history@.len() <= self.max_history
        &&& forall|h: int|
            0 <= h < self.history@.len() ==> (#[trigger] self.history@[h])@.len() >= 1
    }

    /// A fresh buffer: cursor at the origin, every cell default, no
    /// scrollback, no selection, scrollback capped at 1000 rows.
    pub fn new(rows: usize, cols: usize) -> (b: TerminalBuffer)
        requires
            1 <= rows,
            1 <= cols,
            rows * cols <= usize::MAX,
        ensures
            b.wf(),
            b.rows == rows,
            b.cols == cols,
            b.cursor_row == 0,
            b.cursor_col == 0,
            b.cells@ == default_cells_spec(rows * cols),
            b.history@.len() == 0,
            b.max_history == 1000,
            b.selection is None,
    {
        proof {
            assert(rows as int <= rows as int * cols as int) by (nonlinear_arith)
                requires
                    1 <= rows,
                    1 <= cols,
            ;
        }
        let cell_count = rows * cols;
        let cells = Self::default_cells(cell_count);
        let b = TerminalBuffer {
            rows,
            cols,
            cells,
            cursor_row: 0,
            cursor_col: 0,
            history: Vec::new(),
            max_history: 1000,
            selection: None,
        };
        proof {
            assert(b.cells@ =~= default_cells_spec(rows as int * cols as int));
        }
        b
    }

    /// A vector of `n` default cells.
    fn default_cells(n: usize) -> (v: Vec<TerminalCell>)
        ensures
            v@.len() == n,
            forall|i: int| 0 <= i < n ==> v@[i] == TerminalCell::default_spec(),
    {
        let mut v: Vec<TerminalCell> = Vec::new();
        let mut i: usize = 0;
        while i < n
            invariant
                0 <= i <= n,
                v@.len() == i,
                forall|j: int| 0 <= j < i ==> v@[j] == TerminalCell::default_spec(),
            decreases n - i,
        {
            v.push(TerminalCell::default());
            i = i + 1;
        }
        v
    }

    /// Index of `(row, col)` into the flat cell vector, or `None` when the
    /// position lies outside the grid.
    pub fn get_cell_index(&self, row: usize, col: usize) -> (r: Option<usize>)
        requires
            self.wf(),
        ensures
            row < self.rows && col < self.cols ==> r == Some((row * self.cols + col) as usize),
            !(row < self.rows && col < self.cols) ==> r is None,
    {
        if row < self.rows && col < self.cols {
            proof {
                lemma_grid_index(row as int, col as int, self.rows as int, self.cols as int);
            }
            Some(row * self.cols + col)
        } else {
            None
        }
    }

    /// The cell at `(row, col)`, or `None` outside the grid.
    pub fn get_cell(&self, row: usize, col: usize) -> (r: Option<&TerminalCell>)
        requires
            self.wf(),
        ensures
            row < self.rows && col < self.cols ==> r == Some(
                &self.cells@[row as int * self.cols + col],
            ),
            !(row < self.rows && col < self.cols) ==> r is None,
    {
        proof {
            if row < self.rows && col < self.cols {
                lemma_grid_index(row as int, col as int, self.rows as int, self.cols as int);
            }
        }
        match self.get_cell_index(row, col) {
            Some(idx) => Some(&self.cells[idx]),
            None => None,
        }
    }

    /// Overwrites the cell at `(row, col)`; positions outside the grid are
    /// ignored.
    pub fn set_cell(&mut self, row: usize, col: usize, cell: TerminalCell)
        requires
            old(self).wf(),
        ensures
            final(self).wf(),
            row < old(self).rows && col < old(self).cols ==> *final(self) == (TerminalBuffer {
                cells: final(self).cells,
                ..*old(self)
            }) && final(self).cells@ == old(self).cells@.update(
                row as int * old(self).cols + col,
                cell,
            ),
            !(row < old(self).rows && col < old(self).cols) ==> *final(self) == *old(self),
    {
        proof {
            if row < self.rows && col < self.cols {
                lemma_grid_index(row as int, col as int, self.rows as int, self.cols as int);
            }
        }
        match self.get_cell_index(row, col) {
            Some(idx) => {
                self.cells[idx] = cell;
            },
            None => {},
        }
    }

    /// Moves the cursor to `(row, col)`; positions outside the grid are
    /// ignored.
    pub fn set_cursor(&mut self, row: usize, col: usize)
        requires
            old(self).wf(),
        ensures
            final(self).wf(),
            row < old(self).rows && col < old(self).cols ==> *final(self) == (TerminalBuffer {
                cursor_row: row,
                cursor_col: col,
                ..*old(self)
            }),
            !(row < old(self).rows && col < old(self).cols) ==> *final(self) == *old(self),
    {
        if row < self.rows && col < self.cols {
            self.cursor_row = row;
            self.cursor_col = col;
        }
    }

    /// Resets every cell of the live grid to the default cell and homes the
    /// cursor; scrollback and selection are untouched.
    pub fn clear(&mut self)
        requires
            old(self).wf(),
        ensures
            final(self).wf(),
            *final(self) == (TerminalBuffer {
                cells: final(self).cells,
                cursor_row: 0,
                cursor_col: 0,
                ..*old(self)
            }),
            final(self).cells@ == default_cells_spec(old(self).cells@.len() as int),
    {
        let n = self.cells.len();
        let mut i: usize = 0;
        while i < n
            invariant
                0 <= i <= n,
                self.cells@.len() == n,
                self.rows == old(self).rows,
                self.cols == old(self).cols,
                self.cursor_row == old(self).cursor_row,
                self.cursor_col == old(self).cursor_col,
                self.history == old(self).history,
                self.max_history == old(self).max_history,
                self.selection == old(self).selection,
                forall|j: int| 0 <= j < i ==> self.cells@[j] == TerminalCell::default_spec(),
                forall|j: int| i <= j < n ==> self.cells@[j] == old(self).cells@[j],
            decreases n - i,
        {
            self.cells[i] = TerminalCell::default();
            i = i + 1;
        }
        self.cursor_row = 0;
        self.cursor_col = 0;
        proof {
            assert(self.cells@ =~= default_cells_spec(old(self).cells@.len() as int));
        }
    }

    /// Resets the cursor column to the start of the line.
    pub fn carriage_return(&mut self)
        requires
            old(self).wf(),
        ensures
            final(self).wf(),
            *final(self) == (TerminalBuffer { cursor_col: 0, ..*old(self) }),
    {
        self.cursor_col = 0;
    }

    /// Moves the cursor one column left, stopping at the line start; no cell
    /// is erased.
    pub fn backspace(&mut self)
        requires
            old(self).wf(),
        ensures
            final(self).wf(),
            old(self).cursor_col > 0 ==> *final(self) == (TerminalBuffer {
                cursor_col: (old(self).cursor_col - 1) as usize,
                ..*old(self)
            }),
            old(self).cursor_col == 0 ==> *final(self) == *old(self),
    {
        if self.cursor_col > 0 {
            self.cursor_col = self.cursor_col - 1;
        }
    }

    /// Scroll-or-advance: on any row but the last, the cursor moves down one
    /// row.  On the last row, the top row is pushed into scrollback (evicting
    /// the oldest row when the scrollback is full), the grid shifts up one
    /// row, and the freed bottom row is cleared.  Either way the cursor
    /// column returns to the line start.
    pub fn newline(&mut self)
        requires
            old(self).wf(),
        ensures
            final(self).wf(),
            old(self).cursor_row + 1 < old(self).rows ==> *final(self) == (TerminalBuffer {
                cursor_row: (old(self).cursor_row + 1) as usize,
                cursor_col: 0,
                ..*old(self)
            }),
            old(self).cursor_row + 1 == old(self).rows ==> {
                let evict = old(self).history@.len() == old(self).max_history;
                let shift = if evict { 1int } else { 0int };
                &&& final(self).rows == old(self).rows
                &&& final(self).cols == old(self).cols
                &&& final(self).cursor_row == old(self).cursor_row
                &&& final(self).cursor_col == 0
                &&& final(self).max_history == old(self).max_history
                &&& final(self).selection == old(self).selection
                &&& final(self).history@.len() == old(self).history@.len() + 1 - shift
                &&& forall|h: int|
                    0 <= h < old(self).history@.len() - shift ==> final(self).history@[h]
                        == old(self).history@[h + shift]
                &&& final(self).history@.last()@ == old(self).cells@.subrange(
                    0,
                    old(self).cols as int,
                )
                &&& final(self).cells@.len() == old(self).cells@.len()
                &&& forall|i: int|
                    0 <= i < (old(self).rows - 1) * old(self).cols ==> final(self).cells@[i]
                        == old(self).cells@[i + old(self).cols]
                &&& forall|i: int|
                    (old(self).rows - 1) * old(self).cols <= i < old(self).rows * old(
                        self,
                    ).cols ==> final(self).cells@[i] == TerminalCell::default_spec()
            },
    {
        if self.cursor_row + 1 < self.rows {
            self.cursor_row = self.cursor_row + 1;
        } else {
            let ghost old_self = *self;
            // Copy the top row into scrollback.
            let mut top: Vec<TerminalCell> = Vec::new();
            let mut c: usize = 0;
            proof {
                lemma_shift_bound(self.rows as int, self.cols as int);
            }
            while c < self.cols
                invariant
                    0 <= c <= self.cols,
                    *self == old_self,
                    old_self.wf(),
                    self.cols <= self.cells@.len(),
                    top@.len() == c,
                    forall|j: int| 0 <= j < c ==> top@[j] == self.cells@[j],
                decreases self.cols - c,
            {
                top.push(self.cells[c]);
                c = c + 1;
            }
            proof {
                assert(top@ =~= self.cells@.subrange(0, self.cols as int));
            }
            let ghost topvec = top;
            let ghost hist0 = self.history@;
            self.history.push(top);
            if self.history.len() > self.max_history {
                self.history.remove(0);
                proof {
                    hist0.push(topvec).remove_ensures(0);
                    assert(self.history@ == hist0.push(topvec).remove(0));
                    assert(hist0.push(topvec).remove(0)[hist0.len() as int - 1] == hist0.push(
                        topvec,
                    )[hist0.len() as int]);
                    assert(self.history@.last() == topvec);
                    assert forall|h: int| 0 <= h < hist0.len() - 1 implies self.history@[h]
                        == hist0[h + 1] by {
                        assert(hist0.push(topvec).remove(0)[h] == hist0.push(topvec)[h + 1]);
                    }
                }
            }
            let ghost hist_now = self.history;
            // Shift the grid up one row.
            let limit = (self.rows - 1) * self.cols;
            let mut i: usize = 0;
            while i < limit
                invariant
                    0 <= i <= limit,
                    limit == (old_self.rows - 1) * old_self.cols,
                    limit + old_self.cols == old_self.rows * old_self.cols,
                    old_self.wf(),
                    self.rows == old_self.rows,
                    self.cols == old_self.cols,
                    self.cursor_row == old_self.cursor_row,
                    self.cursor_col == old_self.cursor_col,
                    self.max_history == old_self.max_history,
                    self.selection == old_self.selection,
                    self.history == hist_now,
                    self.cells@.len() == old_self.cells@.len(),
                    forall|j: int| 0 <= j < i ==> self.cells@[j] == old_self.cells@[j + old_self.cols],
                    forall|j: int| i <= j < old_self.cells@.len() ==> self.cells@[j] == old_self.cells@[j],
                decreases limit - i,
            {
                let moved = self.cells[i + self.cols];
                self.cells[i] = moved;
                i = i + 1;
            }
            // Clear the newly exposed bottom row.
            let total = self.cells.len();
            let mut k: usize = limit;
            while k < total
                invariant
                    limit <= k <= total,
                    limit == (old_self.rows - 1) * old_self.cols,
                    total == old_self.cells@.len(),
                    old_self.wf(),
                    self.rows == old_self.rows,
                    self.cols == old_self.cols,
                    self.cursor_row == old_self.cursor_row,
                    self.cursor_col == old_self.cursor_col,
                    self.max_history == old_self.max_history,
                    self.selection == old_self.selection,
                    self.history == hist_now,
                    self.cells@.len() == old_self.cells@.len(),
                    forall|j: int| 0 <= j < limit ==> self.cells@[j] == old_self.cells@[j + old_self.cols],
                    forall|j: int| limit <= j < k ==> self.cells@[j] == TerminalCell::default_spec(),
                    forall|j: int| k <= j < total ==> self.cells@[j] == old_self.cells@[j],
                decreases total - k,
            {
                self.cells[k] = TerminalCell::default();
                k = k + 1;
            }
        }
        self.cursor_col = 0;
    }
}

impl TerminalBuffer {
    /// Reallocates the grid to `new_rows x new_cols`: a no-op for the
    /// current dimensions, otherwise the overlapping rectangle of old
    /// content is copied, new cells are default-initialized, the cursor is
    /// clamped into bounds, and scrollback rows keep their original width.
    pub fn resize(&mut self, new_rows: usize, new_cols: usize)
        requires
            old(self).wf(),
            1 <= new_rows,
            1 <= new_cols,
            new_rows * new_cols <= usize::MAX,
        ensures
            final(self).wf(),
            new_rows == old(self).rows && new_cols == old(self).cols ==> *final(self) == *old(
                self,
            ),
            !(new_rows == old(self).rows && new_cols == old(self).cols) ==> {
                &&& final(self).rows == new_rows
                &&& final(self).cols == new_cols
                &&& final(self).history == old(self).history
                &&& final(self).max_history == old(self).max_history
                &&& final(self).selection == old(self).selection
                &&& final(self).cursor_row == if old(self).cursor_row < new_rows {
                    old(self).cursor_row as int
                } else {
                    new_rows - 1
                }
                &&& final(self).cursor_col == if old(self).cursor_col < new_cols {
                    old(self).cursor_col as int
                } else {
                    new_cols - 1
                }
                &&& final(self).cells@.len() == new_rows * new_cols
                &&& forall|r: int, c: int|
                    0 <= r < new_rows && 0 <= c < new_cols ==> #[trigger] cell_at(
                        final(self).cells@,
                        new_cols as int,
                        r,
                        c,
                    ) == if r < old(self).rows && c < old(self).cols {
                        cell_at(old(self).cells@, old(self).cols as int, r, c)
                    } else {
                        TerminalCell::default_spec()
                    }
            },
    {
        proof {
            assert(new_rows as int <= new_rows as int * new_cols as int) by (nonlinear_arith)
                requires
                    1 <= new_rows,
                    1 <= new_cols,
            ;
        }
        if new_rows == self.rows && new_cols == self.cols {
            return ;
        }
        let ghost old_self = *self;
        let mut new_cells = Self::default_cells(new_rows * new_cols);
        let copy_rows = if self.rows < new_rows {
            self.rows
        } else {
            new_rows
        };
        let copy_cols = if self.cols < new_cols {
            self.cols
        } else {
            new_cols
        };
        proof {
            assert forall|rr: int, cc: int|
                0 <= rr < new_rows && 0 <= cc < new_cols implies #[trigger] cell_at(
                new_cells@,
                new_cols as int,
                rr,
                cc,
            ) == TerminalCell::default_spec() by {
                lemma_grid_index(rr, cc, new_rows as int, new_cols as int);
            }
        }
        let mut r: usize = 0;
        while r < copy_rows
            invariant
                old_self.wf(),
                0 <= r <= copy_rows,
                copy_rows <= old_self.rows,
                copy_rows <= new_rows,
                copy_cols <= old_self.cols,
                copy_cols <= new_cols,
                new_rows * new_cols <= usize::MAX,
                *self == old_self,
                new_cells@.len() == new_rows * new_cols,
                forall|rr: int, cc: int|
                    0 <= rr < new_rows && 0 <= cc < new_cols ==> #[trigger] cell_at(
                        new_cells@,
                        new_cols as int,
                        rr,
                        cc,
                    ) == if rr < r && cc < copy_cols {
                        cell_at(old_self.cells@, old_self.cols as int, rr, cc)
                    } else {
                        TerminalCell::default_spec()
                    },
            decreases copy_rows - r,
        {
            let mut c: usize = 0;
            while c < copy_cols
                invariant
                    old_self.wf(),
                    0 <= r < copy_rows,
                    0 <= c <= copy_cols,
                    copy_rows <= old_self.rows,
                    copy_rows <= new_rows,
                    copy_cols <= old_self.cols,
                    copy_cols <= new_cols,
                    new_rows * new_cols <= usize::MAX,
                    *self == old_self,
                    new_cells@.len() == new_rows * new_cols,
                    forall|rr: int, cc: int|
                        0 <= rr < new_rows && 0 <= cc < new_cols ==> #[trigger] cell_at(
                            new_cells@,
                            new_cols as int,
                            rr,
                            cc,
                        ) == if (rr < r && cc < copy_cols) || (rr == r && cc < c) {
                            cell_at(old_self.cells@, old_self.cols as int, rr, cc)
                        } else {
                            TerminalCell::default_spec()
                        },
                decreases copy_cols - c,
            {
                proof {
                    lemma_grid_index(r as int, c as int, old_self.rows as int, old_self.cols as int);
                    lemma_grid_index(r as int, c as int, new_rows as int, new_cols as int);
                }
                let v = self.cells[r * self.cols + c];
                let ghost pre = new_cells@;
                new_cells[r * new_cols + c] = v;
                proof {
                    assert forall|rr: int, cc: int|
                        0 <= rr < new_rows && 0 <= cc < new_cols implies #[trigger] cell_at(
                        new_cells@,
                        new_cols as int,
                        rr,
                        cc,
                    ) == if (rr < r && cc < copy_cols) || (rr == r && cc < c + 1) {
                        cell_at(old_self.cells@, old_self.cols as int, rr, cc)
                    } else {
                        TerminalCell::default_spec()
                    } by {
                        lemma_grid_index(rr, cc, new_rows as int, new_cols as int);
                        if rr < copy_rows && cc < copy_cols {
                            lemma_grid_index(rr, cc, old_self.rows as int, old_self.cols as int);
                        }
                        if rr != r || cc != c {
                            lemma_index_injective(rr, cc, r as int, c as int, new_cols as int);
                            assert(cell_at(new_cells@, new_cols as int, rr, cc) == cell_at(
                                pre,
                                new_cols as int,
                                rr,
                                cc,
                            ));
                        }
                    }
                }
                c = c + 1;
            }
            r = r + 1;
        }
        self.cells = new_cells;
        self.rows = new_rows;
        self.cols = new_cols;
        if self.cursor_row >= new_rows {
            self.cursor_row = new_rows - 1;
        }
        if self.cursor_col >= new_cols {
            self.cursor_col = new_cols - 1;
        }
    }

    /// An owned copy of the whole buffer, safe to hand to a renderer: the
    /// grid, cursor, scrollback and selection all agree with `self`.
    pub fn snapshot(&self) -> (b: TerminalBuffer)
        requires
            self.wf(),
        ensures
            b.wf(),
            b.rows == self.rows,
            b.cols == self.cols,
            b.cursor_row == self.cursor_row,
            b.cursor_col == self.cursor_col,
            b.max_history == self.max_history,
            b.selection == self.selection,
            b.cells@ == self.cells@,
            b.history@.len() == self.history@.len(),
            forall|h: int|
                0 <= h < self.history@.len() ==> (#[trigger] b.history@[h])@ == self.history@[h]@,
    {
        let mut cells: Vec<TerminalCell> = Vec::new();
        let mut i: usize = 0;
        let n = self.cells.len();
        while i < n
            invariant
                0 <= i <= n,
                n == self.cells@.len(),
                cells@.len() == i,
                forall|j: int| 0 <= j < i ==> cells@[j] == self.cells@[j],
            decreases n - i,
        {
            cells.push(self.cells[i]);
            i = i + 1;
        }
        let mut history: Vec<Vec<TerminalCell>> = Vec::new();
        let mut h: usize = 0;
        let m = self.history.len();
        while h < m
            invariant
                0 <= h <= m,
                m == self.history@.len(),
                history@.len() == h,
                forall|k: int| 0 <= k < h ==> (#[trigger] history@[k])@ == self.history@[k]@,
            decreases m - h,
        {
            let mut row: Vec<TerminalCell> = Vec::new();
            let mut j: usize = 0;
            let w = self.history[h].len();
            while j < w
                invariant
                    0 <= h < m,
                    m == self.history@.len(),
                    0 <= j <= w,
                    w == self.history@[h as int]@.len(),
                    row@.len() == j,
                    forall|k: int| 0 <= k < j ==> row@[k] == self.history@[h as int]@[k],
                decreases w - j,
            {
                row.push(self.history[h][j]);
                j = j + 1;
            }
            proof {
                assert(row@ =~= self.history@[h as int]@);
            }
            history.push(row);
            h = h + 1;
        }
        let b = TerminalBuffer {
            rows: self.rows,
            cols: self.cols,
            cells,
            cursor_row: self.cursor_row,
            cursor_col: self.cursor_col,
            history,
            max_history: self.max_history,
            selection: self.selection,
        };
        proof {
            assert(b.cells@ =~= self.cells@);
        }
        b
    }
}

impl TerminalBuffer {
    /// How a repaint of the selection highlight relates `post` to `pre`:
    /// every flag equals whether the (normalized) selection covers that
    /// position in the unified row space, and nothing else changes.
    pub open spec fn highlight_model(pre: TerminalBuffer, post: TerminalBuffer, sel: Option<
        SelectionRange,
    >) -> bool {
        let hl = pre.history@.len() as int;
        &&& post.rows == pre.rows
        &&& post.cols == pre.cols
        &&& post.cursor_row == pre.cursor_row
        &&& post.cursor_col == pre.cursor_col
        &&& post.max_history == pre.max_history
        &&& post.cells@.len() == pre.cells@.len()
        &&& post.history@.len() == pre.history@.len()
        &&& forall|h: int|
            0 <= h < pre.history@.len() ==> (#[trigger] post.history@[h])@.len()
                == pre.history@[h]@.len()
        &&& forall|r: int, c: int|
            0 <= r < pre.rows && 0 <= c < pre.cols ==> #[trigger] cell_at(
                post.cells@,
                pre.cols as int,
                r,
                c,
            ) == cell_at(pre.cells@, pre.cols as int, r, c).with_selected_spec(
                sel_flag_spec(sel, hl + r, c, pre.cols as int),
            )
        &&& forall|h: int, c: int|
            0 <= h < pre.history@.len() && 0 <= c < pre.history@[h]@.len()
                ==> #[trigger] post.history@[h]@[c] == pre.history@[h]@[c].with_selected_spec(
                sel_flag_spec(sel, h, c, pre.cols as int),
            )
    }

    /// The ordered form of a selection range, as four coordinates.
    pub fn normalize_selection(&self, selection: &SelectionRange) -> (r: (usize, usize, usize, usize))
        ensures
            r == (
                selection.normalize_spec().start_row,
                selection.normalize_spec().start_col,
                selection.normalize_spec().end_row,
                selection.normalize_spec().end_col,
            ),
    {
        if selection.start_row < selection.end_row {
            (selection.start_row, selection.start_col, selection.end_row, selection.end_col)
        } else if selection.start_row == selection.end_row {
            if selection.start_col <= selection.end_col {
                (selection.start_row, selection.start_col, selection.end_row, selection.end_col)
            } else {
                (selection.start_row, selection.end_col, selection.end_row, selection.start_col)
            }
        } else {
            (selection.end_row, selection.end_col, selection.start_row, selection.start_col)
        }
    }

    fn covers(norm: &SelectionRange, r: usize, c: usize, cols: usize) -> (b: bool)
        ensures
            b == norm.covers_spec(r as int, c as int, cols as int),
    {
        norm.start_row <= r && r <= norm.end_row && (r > norm.start_row || c >= norm.start_col)
            && (r < norm.end_row || c <= norm.end_col) && (r == norm.end_row || c < cols)
    }

    /// Repaints every selection-highlight flag from the current selection
    /// range: previous flags are discarded, covered cells are flagged, and
    /// no other cell state changes.
    fn refresh_highlight(&mut self)
        requires
            old(self).wf(),
        ensures
            final(self).wf(),
            final(self).selection == old(self).selection,
            TerminalBuffer::highlight_model(*old(self), *final(self), old(self).selection),
    {
        let ghost pre = *self;
        let norm: Option<SelectionRange> = match &self.selection {
            Some(sel) => {
                let (sr, sc, er, ec) = self.normalize_selection(sel);
                Some(SelectionRange { start_row: sr, start_col: sc, end_row: er, end_col: ec })
            },
            None => None,
        };
        let hl = self.history.len();
        // Live grid sweep.
        let mut r: usize = 0;
        while r < self.rows
            invariant
                pre.wf(),
                *self == (TerminalBuffer { cells: self.cells, ..pre }),
                self.cells@.len() == pre.cells@.len(),
                hl == pre.history@.len(),
                norm_matches(norm, pre.selection),
                0 <= r <= pre.rows,
                forall|rr: int, cc: int|
                    0 <= rr < pre.rows && 0 <= cc < pre.cols ==> #[trigger] cell_at(
                        self.cells@,
                        pre.cols as int,
                        rr,
                        cc,
                    ) == if rr < r {
                        cell_at(pre.cells@, pre.cols as int, rr, cc).with_selected_spec(
                            sel_flag_spec(pre.selection, hl + rr, cc, pre.cols as int),
                        )
                    } else {
                        cell_at(pre.cells@, pre.cols as int, rr, cc)
                    },
            decreases pre.rows - r,
        {
            let mut c: usize = 0;
            while c < self.cols
                invariant
                    pre.wf(),
                    *self == (TerminalBuffer { cells: self.cells, ..pre }),
                    self.cells@.len() == pre.cells@.len(),
                    hl == pre.history@.len(),
                    norm_matches(norm, pre.selection),
                    0 <= r < pre.rows,
                    0 <= c <= pre.cols,
                    forall|rr: int, cc: int|
                        0 <= rr < pre.rows && 0 <= cc < pre.cols ==> #[trigger] cell_at(
                            self.cells@,
                            pre.cols as int,
                            rr,
                            cc,
                        ) == if rr < r || (rr == r && cc < c) {
                            cell_at(pre.cells@, pre.cols as int, rr, cc).with_selected_spec(
                                sel_flag_spec(pre.selection, hl + rr, cc, pre.cols as int),
                            )
                        } else {
                            cell_at(pre.cells@, pre.cols as int, rr, cc)
                        },
                decreases pre.cols - c,
            {
                proof {
                    lemma_grid_index(r as int, c as int, pre.rows as int, pre.cols as int);
                }
                let flag = match &norm {
                    Some(nsel) => {
                        if r <= usize::MAX - hl {
                            Self::covers(nsel, hl + r, c, self.cols)
                        } else {
                            // The unified row index exceeds the machine
                            // range, so it lies past any selection end.
                            proof {
                                assert(!nsel.covers_spec(
                                    hl as int + r as int,
                                    c as int,
                                    pre.cols as int,
                                ));
                            }
                            false
                        }
                    },
                    None => false,
                };
                let idx = r * self.cols + c;
                let mut cell = self.cells[idx];
                cell.is_selected = flag;
                let ghost precells = self.cells@;
                self.cells[idx] = cell;
                proof {
                    assert forall|rr: int, cc: int|
                        0 <= rr < pre.rows && 0 <= cc < pre.cols implies #[trigger] cell_at(
                        self.cells@,
                        pre.cols as int,
                        rr,
                        cc,
                    ) == if rr < r || (rr == r && cc < c + 1) {
                        cell_at(pre.cells@, pre.cols as int, rr, cc).with_selected_spec(
                            sel_flag_spec(pre.selection, hl + rr, cc, pre.cols as int),
                        )
                    } else {
                        cell_at(pre.cells@, pre.cols as int, rr, cc)
                    } by {
                        lemma_grid_index(rr, cc, pre.rows as int, pre.cols as int);
                        if rr == r && cc == c {
                            assert(cell_at(precells, pre.cols as int, rr, cc) == cell_at(
                                pre.cells@,
                                pre.cols as int,
                                rr,
                                cc,
                            ));
                            assert(cell_at(self.cells@, pre.cols as int, rr, cc) == cell);
                            assert(flag == sel_flag_spec(pre.selection, hl + rr, cc, pre.cols as int));
                            assert(cell == cell_at(pre.cells@, pre.cols as int, rr, cc).with_selected_spec(flag));
                        } else {
                            lemma_index_injective(rr, cc, r as int, c as int, pre.cols as int);
                            assert(cell_at(self.cells@, pre.cols as int, rr, cc) == cell_at(
                                precells,
                                pre.cols as int,
                                rr,
                                cc,
                            ));
                        }
                    }
                }
                c = c + 1;
            }
            r = r + 1;
        }
        // Scrollback sweep.
        let ghost mid = *self;
        let mut h: usize = 0;
        while h < hl
            invariant
                pre.wf(),
                *self == (TerminalBuffer { history: self.history, ..mid }),
                mid == (TerminalBuffer { cells: mid.cells, ..pre }),
                self.history@.len() == pre.history@.len(),
                hl == pre.history@.len(),
                norm_matches(norm, pre.selection),
                0 <= h <= hl,
                forall|k: int|
                    h <= k < hl ==> #[trigger] self.history@[k] == pre.history@[k],
                forall|k: int|
                    0 <= k < h ==> (#[trigger] self.history@[k])@.len() == pre.history@[k]@.len(),
                forall|k: int, cc: int|
                    0 <= k < h && 0 <= cc < pre.history@[k]@.len()
                        ==> #[trigger] self.history@[k]@[cc] == pre.history@[k]@[cc].with_selected_spec(
                        sel_flag_spec(pre.selection, k, cc, pre.cols as int),
                    ),
            decreases hl - h,
        {
            let w = self.history[h].len();
            let mut row: Vec<TerminalCell> = Vec::new();
            let mut c: usize = 0;
            while c < w
                invariant
                    pre.wf(),
                    hl == pre.history@.len(),
                    norm_matches(norm, pre.selection),
                    0 <= h < hl,
                    self.cols == pre.cols,
                    self.history@.len() == pre.history@.len(),
                    self.history@[h as int] == pre.history@[h as int],
                    w == pre.history@[h as int]@.len(),
                    0 <= c <= w,
                    row@.len() == c,
                    forall|cc: int|
                        0 <= cc < c ==> #[trigger] row@[cc] == pre.history@[h as int]@[cc].with_selected_spec(
                            sel_flag_spec(pre.selection, h as int, cc, pre.cols as int),
                        ),
                decreases w - c,
            {
                let flag = match &norm {
                    Some(nsel) => Self::covers(nsel, h, c, self.cols),
                    None => false,
                };
                let mut cell = self.history[h][c];
                cell.is_selected = flag;
                row.push(cell);
                c = c + 1;
            }
            self.history[h] = row;
            h = h + 1;
        }
    }

    /// Records an anchor point as a fresh one-point selection and repaints
    /// the highlight.
    pub fn start_selection(&mut self, row: usize, col: usize)
        requires
            old(self).wf(),
        ensures
            final(self).wf(),
            final(self).selection == Some(
                SelectionRange { start_row: row, start_col: col, end_row: row, end_col: col },
            ),
            TerminalBuffer::highlight_model(
                *old(self),
                *final(self),
                final(self).selection,
            ),
    {
        self.selection = Some(
            SelectionRange { start_row: row, start_col: col, end_row: row, end_col: col },
        );
        self.refresh_highlight();
    }

    /// Moves the floating end point of the current selection and repaints;
    /// without a selection this does nothing.
    pub fn update_selection(&mut self, row: usize, col: usize)
        requires
            old(self).wf(),
        ensures
            final(self).wf(),
            old(self).selection is None ==> *final(self) == *old(self),
            old(self).selection matches Some(sel) ==> {
                &&& final(self).selection == Some(
                    SelectionRange { end_row: row, end_col: col, ..sel },
                )
                &&& TerminalBuffer::highlight_model(
                    *old(self),
                    *final(self),
                    final(self).selection,
                )
            },
    {
        match &self.selection {
            Some(sel) => {
                self.selection = Some(
                    SelectionRange { end_row: row, end_col: col, ..*sel },
                );
                self.refresh_highlight();
            },
            None => {},
        }
    }

    /// Ends the selection gesture; the recorded range stays as it is.
    pub fn end_selection(&mut self)
        requires
            old(self).wf(),
        ensures
            *final(self) == *old(self),
    {
    }

    /// Drops the selection and clears every highlight flag.
    pub fn clear_selection(&mut self)
        requires
            old(self).wf(),
        ensures
            final(self).wf(),
            final(self).selection is None,
            TerminalBuffer::highlight_model(*old(self), *final(self), None),
    {
        self.selection = None;
        self.refresh_highlight();
    }
}

impl TerminalBuffer {
    /// The characters a text extraction takes from unified row `r` of a
    /// normalized range: scrollback rows are read at their own width,
    /// live rows at the grid width, and rows past the end contribute
    /// nothing.
    pub open spec fn row_text_spec(self, norm: SelectionRange, r: int) -> Seq<char> {
        let hl = self.history@.len() as int;
        let lo = if r == norm.start_row { norm.start_col as int } else { 0 };
        let hi0 = if r == norm.end_row { norm.end_col as int } else { self.cols - 1 };
        if r < hl {
            let line = self.history@[r]@;
            let hi = if hi0 < line.len() - 1 { hi0 } else { line.len() - 1 };
            if lo <= hi {
                Seq::new((hi - lo + 1) as nat, |k: int| line[lo + k].character)
            } else {
                Seq::empty()
            }
        } else if r - hl < self.rows {
            let hi = if hi0 < self.cols - 1 { hi0 } else { self.cols - 1 };
            if lo <= hi {
                Seq::new(
                    (hi - lo + 1) as nat,
                    |k: int| cell_at(self.cells@, self.cols as int, r - hl, lo + k).character,
                )
            } else {
                Seq::empty()
            }
        } else {
            Seq::empty()
        }
    }

    /// The extracted text of a normalized range from unified row `r` down:
    /// the rows' characters joined by a line break between rows, with none
    /// after the final row.
    pub open spec fn text_from_spec(self, norm: SelectionRange, r: int) -> Seq<char>
        decreases norm.end_row - r,
    {
        if r < 0 || r > norm.end_row {
            Seq::empty()
        } else if r < norm.end_row {
            self.row_text_spec(norm, r) + seq!['\n'] + self.text_from_spec(norm, r + 1)
        } else {
            self.row_text_spec(norm, r)
        }
    }

    /// How many cell characters the extraction takes from unified row `r`
    /// down; the line breaks between rows are not counted.
    pub open spec fn cells_covered_from_spec(self, norm: SelectionRange, r: int) -> int
        decreases norm.end_row - r,
    {
        if r < 0 || r > norm.end_row {
            0
        } else if r < norm.end_row {
            self.row_text_spec(norm, r).len() + self.cells_covered_from_spec(norm, r + 1)
        } else {
            self.row_text_spec(norm, r).len() as int
        }
    }

    /// A covered-cell count is never negative.
    proof fn lemma_covered_nonneg(self, norm: SelectionRange, r: int)
        ensures
            self.cells_covered_from_spec(norm, r) >= 0,
        decreases norm.end_row - r,
    {
        if r < 0 || r > norm.end_row {
        } else if r < norm.end_row {
            self.lemma_covered_nonneg(norm, r + 1);
        }
    }

    /// What `get_selected_text` returns: `None` without a selection, for a
    /// zero-width (same-point) selection, or when the range covers no cell
    /// at all (the line breaks between rows alone do not count); otherwise
    /// the extracted text.
    pub open spec fn selected_text_spec(self) -> Option<Seq<char>> {
        match self.selection {
            None => None,
            Some(sel) => {
                let norm = sel.normalize_spec();
                if norm.is_empty_spec() {
                    None
                } else if self.cells_covered_from_spec(norm, norm.start_row as int) == 0 {
                    None
                } else {
                    Some(self.text_from_spec(norm, norm.start_row as int))
                }
            },
        }
    }

    /// Extracts the selected text, walking scrollback and the live grid row
    /// by row.
    pub fn get_selected_text(&self) -> (r: Option<String>)
        requires
            self.wf(),
        ensures
            match r {
                Some(s) => self.selected_text_spec() == Some(s@),
                None => self.selected_text_spec() is None,
            },
    {
        let sel = match &self.selection {
            Some(sel) => *sel,
            None => {
                return None;
            },
        };
        let (sr, sc, er, ec) = self.normalize_selection(&sel);
        let ghost norm = sel.normalize_spec();
        if sr == er && sc == ec {
            return None;
        }
        let hl = self.history.len();
        let mut out = String::new();
        let mut any = false;
        let ghost mut taken: int = 0;
        let mut r: usize = sr;
        loop
            invariant_except_break
                self.wf(),
                hl == self.history@.len(),
                norm == sel.normalize_spec(),
                sr == norm.start_row,
                sc == norm.start_col,
                er == norm.end_row,
                ec == norm.end_col,
                sr <= r <= er,
                taken >= 0,
                taken == self.cells_covered_from_spec(norm, sr as int)
                    - self.cells_covered_from_spec(norm, r as int),
                any == (taken > 0),
                self.text_from_spec(norm, sr as int) == out@ + self.text_from_spec(
                    norm,
                    r as int,
                ),
            ensures
                out@ == self.text_from_spec(norm, sr as int),
                any == (self.cells_covered_from_spec(norm, sr as int) > 0),
            decreases er - r,
        {
            let ghost base = out@;
            let lo = if r == sr {
                sc
            } else {
                0
            };
            let hi0 = if r == er {
                ec
            } else {
                self.cols - 1
            };
            if r < hl {
                let w = self.history[r].len();
                let hi = if hi0 < w - 1 {
                    hi0
                } else {
                    w - 1
                };
                let mut c = lo;
                if lo <= hi {
                any = true;
                while c <= hi
                    invariant
                        self.wf(),
                        hl == self.history@.len(),
                        0 <= r < hl,
                        w == self.history@[r as int]@.len(),
                        w >= 1,
                        hi < w,
                        lo <= c <= hi + 1,
                        out@ == base + Seq::new(
                            (c - lo) as nat,
                            |k: int| self.history@[r as int]@[lo + k].character,
                        ),
                    decreases hi + 1 - c,
                {
                    crate::strutil::push_char(&mut out, self.history[r][c].character);
                    c = c + 1;
                    proof {
                        assert(out@ =~= base + Seq::new(
                            (c - lo) as nat,
                            |k: int| self.history@[r as int]@[lo + k].character,
                        ));
                    }
                }
                }
                proof {
                    assert(out@ =~= base + self.row_text_spec(norm, r as int));
                }
            } else if r - hl < self.rows {
                let row0 = r - hl;
                let hi = if hi0 < self.cols - 1 {
                    hi0
                } else {
                    self.cols - 1
                };
                let mut c = lo;
                if lo <= hi {
                any = true;
                while c <= hi
                    invariant
                        self.wf(),
                        hl == self.history@.len(),
                        r >= hl,
                        row0 == r - hl,
                        row0 < self.rows,
                        hi < self.cols,
                        lo <= c <= hi + 1,
                        out@ == base + Seq::new(
                            (c - lo) as nat,
                            |k: int| cell_at(
                                self.cells@,
                                self.cols as int,
                                r - self.history@.len(),
                                lo + k,
                            ).character,
                        ),
                    decreases hi + 1 - c,
                {
                    proof {
                        lemma_grid_index(row0 as int, c as int, self.rows as int, self.cols as int);
                    }
                    crate::strutil::push_char(&mut out, self.cells[row0 * self.cols + c].character);
                    c = c + 1;
                    proof {
                        assert(out@ =~= base + Seq::new(
                            (c - lo) as nat,
                            |k: int| cell_at(
                                self.cells@,
                                self.cols as int,
                                r - self.history@.len(),
                                lo + k,
                            ).character,
                        ));
                    }
                }
                }
                proof {
                    assert(out@ =~= base + self.row_text_spec(norm, r as int));
                }
            } else {
                proof {
                    assert(out@ =~= base + self.row_text_spec(norm, r as int));
                }
            }
            proof {
                taken = taken + self.row_text_spec(norm, r as int).len();
                assert(self.cells_covered_from_spec(norm, r as int) == self.row_text_spec(
                    norm,
                    r as int,
                ).len() + self.cells_covered_from_spec(norm, r as int + 1));
            }
            if r < er {
                crate::strutil::push_char(&mut out, '\n');
                proof {
                    assert(out@ =~= base + self.row_text_spec(norm, r as int) + seq!['\n']);
                    assert(self.text_from_spec(norm, r as int) == self.row_text_spec(
                        norm,
                        r as int,
                    ) + seq!['\n'] + self.text_from_spec(norm, r as int + 1));
                    assert(out@ + self.text_from_spec(norm, r as int + 1) =~= base
                        + self.text_from_spec(norm, r as int));
                }
                r = r + 1;
            } else {
                proof {
                    assert(self.text_from_spec(norm, r as int) == self.row_text_spec(
                        norm,
                        r as int,
                    ));
                    assert(out@ =~= base + self.text_from_spec(norm, r as int));
                    assert(self.cells_covered_from_spec(norm, r as int + 1) == 0);
                }
                break;
            }
        }
        proof {
            self.lemma_covered_nonneg(norm, sr as int);
        }
        if !any {
            None
        } else {
            Some(out)
        }
    }
}


/// Repainting twice collapses: only the highlight flags change, so the
/// second repaint alone determines them.
pub proof fn lemma_highlight_compose(
    a: TerminalBuffer,
    b: TerminalBuffer,
    c: TerminalBuffer,
    s1: Option<SelectionRange>,
    s2: Option<SelectionRange>,
)
    requires
        TerminalBuffer::highlight_model(a, b, s1),
        TerminalBuffer::highlight_model(b, c, s2),
    ensures
        TerminalBuffer::highlight_model(a, c, s2),
{
    assert forall|r: int, c0: int|
        0 <= r < a.rows && 0 <= c0 < a.cols implies #[trigger] cell_at(
        c.cells@,
        a.cols as int,
        r,
        c0,
    ) == cell_at(a.cells@, a.cols as int, r, c0).with_selected_spec(
        sel_flag_spec(s2, a.history@.len() + r, c0, a.cols as int),
    ) by {
        assert(cell_at(b.cells@, a.cols as int, r, c0) == cell_at(
            a.cells@,
            a.cols as int,
            r,
            c0,
        ).with_selected_spec(sel_flag_spec(s1, a.history@.len() + r, c0, a.cols as int)));
    }
    assert forall|h: int, c0: int|
        0 <= h < a.history@.len() && 0 <= c0 < a.history@[h]@.len() implies #[trigger] c.history@[h]@[c0]
        == a.history@[h]@[c0].with_selected_spec(
        sel_flag_spec(s2, h, c0, a.cols as int),
    ) by {
        assert(b.history@[h]@[c0] == a.history@[h]@[c0].with_selected_spec(
            sel_flag_spec(s1, h, c0, a.cols as int),
        ));
    }
}

/// An exec-computed normalized range agrees with the stored selection.
pub open spec fn norm_matches(norm: Option<SelectionRange>, sel: Option<SelectionRange>) -> bool {
    match sel {
        Some(s) => norm == Some(s.normalize_spec()),
        None => norm is None,
    }
}

/// The highlight flag a repaint gives the cell at unified row `r`,
/// column `c`.
pub open spec fn sel_flag_spec(sel: Option<SelectionRange>, r: int, c: int, cols: int) -> bool {
    match sel {
        Some(s) => s.normalize_spec().covers_spec(r, c, cols),
        None => false,
    }
}

/// The cell of a row-major grid `cols` wide at `(r, c)`.
pub open spec fn cell_at(s: Seq<TerminalCell>, cols: int, r: int, c: int) -> TerminalCell {
    s[r * cols + c]
}

/// Distinct in-bounds grid positions map to distinct flat indices.
#[verifier::nonlinear]
pub proof fn lemma_index_injective(r1: int, c1: int, r2: int, c2: int, cols: int)
    requires
        0 <= c1 < cols,
        0 <= c2 < cols,
        !(r1 == r2 && c1 == c2),
    ensures
        r1 * cols + c1 != r2 * cols + c2,
{
}

/// Within a well-formed grid, a row-major index stays inside the cell
/// vector.
#[verifier::nonlinear]
pub proof fn lemma_grid_index(r: int, c: int, rows: int, cols: int)
    requires
        0 <= r < rows,
        0 <= c < cols,
    ensures
        0 <= r * cols + c < rows * cols,
{
}

/// The cell vector splits into the first `rows - 1` rows and the last row.
#[verifier::nonlinear]
pub proof fn lemma_shift_bound(rows: int, cols: int)
    requires
        rows >= 1,
        cols >= 1,
    ensures
        (rows - 1) * cols + cols == rows * cols,
        0 <= (rows - 1) * cols <= rows * cols,
{
}

} // verus!
