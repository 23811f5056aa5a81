//! Image overlays: how many rows an image takes, where it stands relative to
//! the viewport, and whether and how far it is to be drawn.

use crate::ueberzug::{Actions, UeConf, UeConfView};
use vstd::prelude::*;

verus! {

/// The rows that an image of `image_height` pixels takes in a grid of
/// `grid_rows` rows on a terminal of `term_height` pixels.
pub open spec fn row_span(grid_rows: int, image_height: int, term_height: int) -> int {
    (grid_rows * image_height) / term_height + 1
}

/// Whether an overlay of `rows` rows at `offset` rows below the top of a grid
/// of `grid_rows` rows is to be drawn.
pub open spec fn eligible(offset: int, rows: int, grid_rows: int) -> bool {
    offset < grid_rows && offset + rows > 0
}

/// Whether row `r` is one of the `len` rows that start at row `start`.
pub open spec fn in_rows(r: int, start: int, len: int) -> bool {
    start <= r < start + len
}

/// Whether some row lies both in the overlay and in the grid.
pub open spec fn intersects_grid(offset: int, rows: int, grid_rows: int) -> bool {
    exists|r: int| #[trigger] in_rows(r, offset, rows) && in_rows(r, 0, grid_rows)
}

/// Whether the top of the grid cuts the overlay: part of it is above, part of
/// it below.
pub open spec fn cut_by_top(offset: int, rows: int) -> bool {
    offset < 0 && offset + rows > 0
}

/// The rows of text that an overlay takes up in a frame.
pub open spec fn rows_consumed(offset: int, rows: int, grid_rows: int) -> int {
    let below = if offset > 0 {
        grid_rows - offset
    } else {
        grid_rows
    };
    if rows <= below {
        rows
    } else {
        below
    }
}

/// An overlay is to be drawn exactly when it has rows, the grid has rows, and
/// one of them is common: for an overlay and a grid that are not empty, to be
/// eligible is to intersect the grid.
pub proof fn lemma_eligible_iff_intersects(offset: int, rows: int, grid_rows: int)
    ensures
        intersects_grid(offset, rows, grid_rows) <==> eligible(offset, rows, grid_rows) && rows > 0
            && grid_rows > 0,
        rows > 0 && grid_rows > 0 ==> (eligible(offset, rows, grid_rows) <==> intersects_grid(
            offset,
            rows,
            grid_rows,
        )),
{
    if eligible(offset, rows, grid_rows) && rows > 0 && grid_rows > 0 {
        let r = if offset > 0 {
            offset
        } else {
            0
        };
        assert(in_rows(r, offset, rows) && in_rows(r, 0, grid_rows));
    }
}

/// An overlay that is to be drawn takes up at least no row and at most the
/// rows of the grid, and no more than its own.
pub proof fn lemma_rows_consumed_bounds(offset: int, rows: int, grid_rows: int)
    requires
        eligible(offset, rows, grid_rows),
        rows >= 0,
        grid_rows >= 0,
    ensures
        0 <= rows_consumed(offset, rows, grid_rows) <= grid_rows,
        rows_consumed(offset, rows, grid_rows) <= rows,
{
}

/// `row_span` for the sizes that a terminal reports, or nothing where the
/// terminal reports no height in pixels.
pub fn compute_row_span(grid_rows: u16, image_height: u32, term_height: u16) -> (r: Option<u64>)
    ensures
        term_height == 0 <==> r is None,
        r matches Some(n) ==> n == row_span(grid_rows as int, image_height as int, term_height as int)
            && 1 <= n <= 0xffff_0000_0000,
{
    if term_height == 0 {
        None
    } else {
        assert(grid_rows as int * image_height as int <= 0xffff * 0xffff_ffff
            && grid_rows as int * image_height as int >= 0) by (nonlinear_arith)
            requires
                0 <= grid_rows <= 0xffff,
                0 <= image_height <= 0xffff_ffff,
        ;
        let product: u64 = (grid_rows as u64) * (image_height as u64);
        assert(0 <= product as int / term_height as int <= product as int) by (nonlinear_arith)
            requires
                product >= 0,
                term_height >= 1,
        ;
        Some(product / (term_height as u64) + 1)
    }
}

/// Whether an overlay is to be drawn.
pub fn is_eligible(offset: i64, rows: u64, grid_rows: u16) -> (r: bool)
    ensures
        r == eligible(offset as int, rows as int, grid_rows as int),
{
    offset < grid_rows as i64 && offset as i128 + rows as i128 > 0
}

/// Whether the top of the grid cuts an overlay.
pub fn is_cut_by_top(offset: i64, rows: u64) -> (r: bool)
    ensures
        r == cut_by_top(offset as int, rows as int),
{
    offset < 0 && offset as i128 + rows as i128 > 0
}

/// The rows of text that an overlay which is to be drawn takes up in a frame.
pub fn compute_rows_consumed(offset: i64, rows: u64, grid_rows: u16) -> (r: u16)
    requires
        eligible(offset as int, rows as int, grid_rows as int),
    ensures
        r == rows_consumed(offset as int, rows as int, grid_rows as int),
{
    let below: u16 = if offset > 0 {
        (grid_rows as i64 - offset) as u16
    } else {
        grid_rows
    };
    if rows <= below as u64 {
        rows as u16
    } else {
        below
    }
}

/// An image overlay: the file of the image, the rows it takes, the line and
/// the span it is attached to, and the message that draws it, which holds its
/// identifier and its offset from the top of the viewport.
#[derive(Debug)]
pub struct Image {
    pub image_path: String,
    pub rows: u64,
    pub line_no: usize,
    pub col_no: usize,
    pub ue_conf: UeConf,
}

/// An image overlay as a value.
pub struct ImageView {
    pub path: Seq<char>,
    pub rows: int,
    pub line_no: int,
    pub col_no: int,
    pub identifier: Seq<char>,
    pub offset: int,
}

impl View for Image {
    type V = ImageView;

    open spec fn view(&self) -> ImageView {
        ImageView {
            path: self.image_path@,
            rows: self.rows as int,
            line_no: self.line_no as int,
            col_no: self.col_no as int,
            identifier: self.ue_conf.identifier@,
            offset: self.ue_conf.y as int,
        }
    }
}

impl ImageView {
    /// Whether the overlay is to be drawn in a grid of `grid_rows` rows.
    pub open spec fn eligible(self, grid_rows: int) -> bool {
        eligible(self.offset, self.rows, grid_rows)
    }

    /// The message that draws the overlay.
    pub open spec fn message(self) -> UeConfView {
        UeConfView {
            action: Actions::Add,
            identifier: self.identifier,
            x: 0,
            y: self.offset,
            path: self.path,
            width: None,
            height: None,
            scaler: None,
        }
    }
}

/// The overlays of a list as values.
pub open spec fn image_views(images: Seq<Image>) -> Seq<ImageView> {
    images.map_values(|i: Image| i@)
}

impl Image {
    /// The overlay takes at least one row, and its message adds the image of
    /// its file under a name, at the left edge and in its own size.
    pub open spec fn wf(&self) -> bool {
        &&& 1 <= self.rows <= 0xffff_0000_0000
        &&& self.ue_conf@ == self@.message()
        &&& self.ue_conf.identifier@.len() > 0
        &&& self.image_path@.len() > 0
    }

    /// The offset of the overlay from the top of the viewport, in rows.
    pub open spec fn offset(&self) -> int {
        self.ue_conf.y as int
    }

    /// Whether the overlay is to be drawn in a grid of `grid_rows` rows.
    pub open spec fn eligible(&self, grid_rows: int) -> bool {
        eligible(self.offset(), self.rows as int, grid_rows)
    }

    /// The offset of the overlay from the top of the viewport, in rows.
    pub fn vertical_offset(&self) -> (r: i64)
        ensures
            r == self.offset(),
    {
        self.ue_conf.y
    }

    /// Whether the overlay is to be drawn in a grid of `grid_rows` rows.
    pub fn is_eligible(&self, grid_rows: u16) -> (r: bool)
        ensures
            r == self.eligible(grid_rows as int),
    {
        is_eligible(self.ue_conf.y, self.rows, grid_rows)
    }
}

} // verus!
