//! The viewport controller: the visible range of lines inside a character
//! grid, moved by scroll deltas and by resizes of the grid.

use vstd::prelude::*;

verus! {

/// The mathematical state of a viewport: the half-open range of visible lines
/// `[top_line, bottom_line)` and the dimensions of the character grid.
pub struct ViewportState {
    pub top_line: int,
    pub bottom_line: int,
    pub grid_rows: int,
    pub grid_cols: int,
}

impl ViewportState {
    /// The range is ordered, starts at or after the first line and is no
    /// taller than the grid.
    pub open spec fn wf(self) -> bool {
        &&& 0 <= self.top_line <= self.bottom_line
        &&& self.bottom_line - self.top_line <= self.grid_rows
        &&& 0 <= self.grid_cols
    }

    /// The range is well formed and ends within a content of `total` lines.
    pub open spec fn within(self, total: int) -> bool {
        &&& self.wf()
        &&& self.bottom_line <= total
    }

    /// The first page of a grid of `rows` by `cols`.
    pub open spec fn first_page(rows: int, cols: int) -> ViewportState {
        ViewportState { top_line: 0, bottom_line: rows, grid_rows: rows, grid_cols: cols }
    }

    /// The first line of the last page of `total` lines.
    pub open spec fn last_page_top(self, total: int) -> int {
        if total >= self.grid_rows {
            total - self.grid_rows
        } else {
            0
        }
    }

    /// The range after a scroll by `delta` lines over a content of `total`
    /// lines. A forward scroll shifts the range, unless that carries its
    /// bottom past the last line: then the range becomes the last page. A
    /// backward scroll shifts it, unless that carries its top past the first
    /// line: then it becomes the first page.
    pub open spec fn scroll_by(self, delta: int, total: int) -> ViewportState {
        if delta > 0 && self.bottom_line + delta > total {
            ViewportState { top_line: self.last_page_top(total), bottom_line: total, ..self }
        } else if delta < 0 && self.top_line + delta < 0 {
            ViewportState { top_line: 0, bottom_line: self.grid_rows, ..self }
        } else {
            ViewportState {
                top_line: self.top_line + delta,
                bottom_line: self.bottom_line + delta,
                ..self
            }
        }
    }

    /// The range after the grid changes to `rows` by `cols` over a content of
    /// `total` lines, the lines as they are laid out for the new grid. The
    /// bottom moves by the change in rows. Then the range is cut to the
    /// content, so that it is in order and ends within the content whatever
    /// the new layout: a top beyond the content becomes its end, and the
    /// moved bottom is kept between the top and the end of the content. Where
    /// the moved bottom lies there already, it is the bottom.
    pub open spec fn resize(self, rows: int, cols: int, total: int) -> ViewportState {
        let top = if self.top_line <= total {
            self.top_line
        } else {
            total
        };
        let moved = self.bottom_line + (rows - self.grid_rows);
        let bottom = if moved < top {
            top
        } else if moved > total {
            total
        } else {
            moved
        };
        ViewportState { top_line: top, bottom_line: bottom, grid_rows: rows, grid_cols: cols }
    }
}

/// A viewport over a content that is measured in lines.
#[derive(Clone, Copy, Debug)]
pub struct Viewport {
    top: usize,
    bottom: usize,
    rows: u16,
    cols: u16,
}

impl View for Viewport {
    type V = ViewportState;

    closed spec fn view(&self) -> ViewportState {
        ViewportState {
            top_line: self.top as int,
            bottom_line: self.bottom as int,
            grid_rows: self.rows as int,
            grid_cols: self.cols as int,
        }
    }
}

impl Viewport {
    /// The first page of a grid of `rows` by `cols`.
    pub fn new(rows: u16, cols: u16) -> (v: Viewport)
        ensures
            v@ == ViewportState::first_page(rows as int, cols as int),
            v@.wf(),
    {
        Viewport { top: 0, bottom: rows as usize, rows, cols }
    }

    /// The first visible line.
    pub fn top_line(&self) -> (r: usize)
        ensures
            r == self@.top_line,
    {
        self.top
    }

    /// The line after the last visible one.
    pub fn bottom_line(&self) -> (r: usize)
        ensures
            r == self@.bottom_line,
    {
        self.bottom
    }

    /// The rows of the grid.
    pub fn grid_rows(&self) -> (r: u16)
        ensures
            r == self@.grid_rows,
    {
        self.rows
    }

    /// The columns of the grid.
    pub fn grid_cols(&self) -> (r: u16)
        ensures
            r == self@.grid_cols,
    {
        self.cols
    }

    /// Scrolls by `delta` lines over a content of `total` lines, forward for a
    /// positive delta.
    pub fn scroll_by(&mut self, delta: i32, total: usize)
        requires
            old(self)@.wf(),
        ensures
            final(self)@ == old(self)@.scroll_by(delta as int, total as int),
            final(self)@.wf(),
            old(self)@.top_line <= total ==> final(self)@.top_line <= total,
    {
        if delta > 0 {
            let past_end = match self.bottom.checked_add(delta as usize) {
                Some(moved) => moved > total,
                None => true,
            };
            if past_end {
                self.top = if total >= self.rows as usize {
                    total - self.rows as usize
                } else {
                    0
                };
                self.bottom = total;
            } else {
                self.top = self.top + delta as usize;
                self.bottom = self.bottom + delta as usize;
            }
        } else if delta < 0 {
            let back: usize = (-(delta as i64)) as usize;
            if self.top < back {
                self.top = 0;
                self.bottom = self.rows as usize;
            } else {
                self.top = self.top - back;
                self.bottom = self.bottom - back;
            }
        }
    }

    /// Takes the dimensions of a resized grid over a content of `total` lines.
    pub fn resize(&mut self, rows: u16, cols: u16, total: usize)
        requires
            old(self)@.wf(),
        ensures
            final(self)@ == old(self)@.resize(rows as int, cols as int, total as int),
            final(self)@.within(total as int),
    {
        let top: usize = if self.top <= total {
            self.top
        } else {
            total
        };
        let bottom: usize = if rows >= self.rows {
            let grown: usize = (rows - self.rows) as usize;
            match self.bottom.checked_add(grown) {
                Some(moved) => if moved > total {
                    total
                } else if moved < top {
                    top
                } else {
                    moved
                },
                None => total,
            }
        } else {
            let shrunk: usize = (self.rows - rows) as usize;
            if self.bottom < shrunk || self.bottom - shrunk < top {
                top
            } else if self.bottom - shrunk > total {
                total
            } else {
                self.bottom - shrunk
            }
        };
        self.top = top;
        self.bottom = bottom;
        self.rows = rows;
        self.cols = cols;
    }
}

/// After a scroll by any delta the range is ordered and no taller than the
/// grid. It also ends within the content, as far as it did before, except
/// after a backward scroll past the first line of a content that is shorter
/// than the grid: the first page of such a grid is longer than the content.
pub proof fn lemma_scroll_stays_in_bounds(v: ViewportState, delta: int, total: int)
    requires
        v.wf(),
        0 <= total,
    ensures
        v.scroll_by(delta, total).wf(),
        v.top_line <= total ==> v.scroll_by(delta, total).top_line <= total,
        v.within(total) ==> (v.scroll_by(delta, total).within(total) <==> !(delta < 0 && v.top_line
            + delta < 0 && v.grid_rows > total)),
        delta > 0 ==> v.scroll_by(delta, total).within(total),
{
}

/// Scrolling backward from the first line leaves the range unchanged exactly
/// when it is the first page; and once a backward scroll from the first line
/// has been made, further backward scrolls change nothing.
pub proof fn lemma_scroll_back_at_start(v: ViewportState, delta: int, again: int, total: int)
    requires
        v.top_line == 0,
        delta < 0,
        again < 0,
    ensures
        v.scroll_by(delta, total) == v <==> v.bottom_line == v.grid_rows,
        v.scroll_by(delta, total).scroll_by(again, total) == v.scroll_by(delta, total),
{
}

/// Scrolling forward from the last line leaves the range unchanged exactly
/// when it is the last page; and once a forward scroll from the last line has
/// been made, further forward scrolls change nothing.
pub proof fn lemma_scroll_forward_at_end(v: ViewportState, delta: int, again: int, total: int)
    requires
        v.bottom_line == total,
        delta > 0,
        again > 0,
    ensures
        v.scroll_by(delta, total) == v <==> v.top_line == v.last_page_top(total),
        v.scroll_by(delta, total).scroll_by(again, total) == v.scroll_by(delta, total),
{
}

/// A resize moves the bottom of the range by the change in rows and leaves the
/// top alone, wherever that keeps the range in order and within the content.
pub proof fn lemma_resize_keeps_row_delta(v: ViewportState, rows: int, cols: int, total: int)
    requires
        v.top_line <= v.bottom_line + (rows - v.grid_rows) <= total,
    ensures
        v.resize(rows, cols, total).top_line == v.top_line,
        v.resize(rows, cols, total).bottom_line == v.bottom_line + (rows - v.grid_rows),
{
}

/// A resize leaves a well-formed range that ends within the content.
pub proof fn lemma_resize_stays_in_bounds(v: ViewportState, rows: int, cols: int, total: int)
    requires
        v.wf(),
        0 <= rows,
        0 <= cols,
        0 <= total,
    ensures
        v.resize(rows, cols, total).within(total),
{
}

} // verus!
