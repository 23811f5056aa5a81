//! The reading surface of a chapter with inline images: a viewport over the
//! styled lines of the chapter, the overlays of the images met so far, and
//! the frames that show them.

use crate::overlay::{
    compute_row_span, compute_rows_consumed, cut_by_top, eligible, image_views, is_cut_by_top,
    is_eligible, row_span, rows_consumed, Image, ImageView,
};
use crate::error::Error;
use crate::renderer::{
    blank_rows, command, command_of, paint_span, piece_of, row_views, Command, Frame, Piece,
    PieceView, Row, RowView,
};
use crate::resource::{bytes_of, ResourceCache};
use crate::styled::{style_lines, styles_all, Annotation, Span, StyledLine, TaggedString};
use crate::text::{decimal, push_decimal};
use crate::ueberzug::{message_views, Actions, UeConf, UeConfView};
use crate::viewport::{Viewport, ViewportState};
use vstd::prelude::*;
use vstd::string::*;

verus! {

/// The most lines that a chapter on the surface can have.
pub const MAX_LINES: u64 = 0x2000_0000_0000_0000;

/// The bound that the offset of an overlay and the first line of the viewport,
/// added together, keep: it leaves room for every scroll over a chapter of
/// `MAX_LINES` lines.
pub const OFFSET_LIMIT: i64 = 0x4000_0000_0000_0000;

/// The rows or columns of a grid that a terminal layer reports as `n`: none
/// for a negative report, and no more than a terminal can have.
pub open spec fn grid_dimension(n: int) -> int {
    if n < 0 {
        0
    } else if n > 0xffff {
        0xffff
    } else {
        n
    }
}

/// `grid_dimension` of what a terminal layer reports.
pub fn to_grid_dimension(n: i32) -> (r: u16)
    ensures
        r == grid_dimension(n as int),
{
    if n < 0 {
        0
    } else if n > 0xffff {
        0xffff
    } else {
        n as u16
    }
}

/// The overlays of a list after the top of the viewport has moved by `shift`
/// lines: each stands `shift` rows higher than it did.
pub open spec fn shifted(images: Seq<ImageView>, shift: int) -> Seq<ImageView> {
    images.map_values(|i: ImageView| ImageView { offset: i.offset - shift, ..i })
}

/// Whether one of the overlays is attached to span `col_no` of line `line_no`.
pub open spec fn has_record(images: Seq<ImageView>, line_no: int, col_no: int) -> bool {
    exists|i: int|
        0 <= i < images.len() && (#[trigger] images[i]).line_no == line_no && images[i].col_no
            == col_no
}

/// The messages that draw the overlays of a list which are to be drawn, in
/// the order of the list.
pub open spec fn messages(images: Seq<ImageView>, grid_rows: int) -> Seq<UeConfView>
    decreases images.len(),
{
    if images.len() == 0 {
        Seq::empty()
    } else if images.last().eligible(grid_rows) {
        messages(images.drop_last(), grid_rows).push(images.last().message())
    } else {
        messages(images.drop_last(), grid_rows)
    }
}

/// The rows that the overlays attached to line `line_no` take up after it.
pub open spec fn reserve(images: Seq<ImageView>, line_no: int, grid_rows: int) -> int
    decreases images.len(),
{
    if images.len() == 0 {
        0
    } else {
        let last = images.last();
        reserve(images.drop_last(), line_no, grid_rows) + if last.line_no == line_no
            && last.eligible(grid_rows) {
            rows_consumed(last.offset, last.rows, grid_rows)
        } else {
            0
        }
    }
}

/// The line that a frame starts with: the line of the first overlay that the
/// top of the grid cuts, so that the text stays with an image until the image
/// has left the grid, and the first line of the viewport where there is none.
pub open spec fn anchor_line(images: Seq<ImageView>, top: int) -> int
    decreases images.len(),
{
    if images.len() == 0 {
        top
    } else if cut_by_top(images[0].offset, images[0].rows) {
        images[0].line_no
    } else {
        anchor_line(images.drop_first(), top)
    }
}

/// The pieces that paint the first `n` spans of line `line_no`: an image
/// reference with an overlay paints nothing, the overlay stands for it.
pub open spec fn pieces(images: Seq<ImageView>, spans: Seq<Span>, line_no: int, n: int) -> Seq<
    PieceView,
>
    decreases n,
{
    if n <= 0 {
        Seq::empty()
    } else {
        let span = spans[n - 1];
        if span.tag == Annotation::ImageRef && has_record(images, line_no, n - 1) {
            pieces(images, spans, line_no, n - 1)
        } else {
            pieces(images, spans, line_no, n - 1).push(piece_of(span))
        }
    }
}

/// The row of line `line_no`.
pub open spec fn line_row(images: Seq<ImageView>, chapter: Seq<StyledLine>, line_no: int) -> RowView {
    RowView::Line {
        line_no,
        pieces: pieces(
            images,
            chapter[line_no].spans@,
            line_no,
            chapter[line_no].spans@.len() as int,
        ),
    }
}

/// The rows of the lines from `line_no` up to `end`, as far as `budget` rows
/// go: each line takes a row, and after it come the blank rows that its
/// overlays take up.
pub open spec fn rows_from(
    images: Seq<ImageView>,
    chapter: Seq<StyledLine>,
    line_no: int,
    end: int,
    budget: int,
    grid_rows: int,
) -> Seq<RowView>
    decreases end - line_no,
{
    if line_no >= end || budget <= 0 {
        Seq::empty()
    } else {
        let wanted = reserve(images, line_no, grid_rows);
        let blank = if wanted < budget - 1 {
            wanted
        } else {
            budget - 1
        };
        seq![line_row(images, chapter, line_no)] + blank_rows(blank) + rows_from(
            images,
            chapter,
            line_no + 1,
            end,
            budget - 1 - blank,
            grid_rows,
        )
    }
}

/// The messages that remove the overlays of a list.
pub open spec fn removals(images: Seq<ImageView>) -> Seq<UeConfView> {
    images.map_values(|i: ImageView| UeConfView::removal(i.identifier))
}

/// What a reconciliation goes by: the lines of the chapter, the images that
/// have been extracted, the viewport, and the height of the terminal in
/// pixels.
pub struct Scene {
    pub chapter: Seq<StyledLine>,
    pub cache: ResourceCache,
    pub viewport: ViewportState,
    pub term_height: int,
}

impl Scene {
    /// The line after the last visible one.
    pub open spec fn end(self) -> int {
        if self.viewport.bottom_line < self.chapter.len() {
            self.viewport.bottom_line
        } else {
            self.chapter.len() as int
        }
    }

    /// Whether span `col_no` of line `line_no` is an image reference that can
    /// have an overlay: its image has been extracted, and the heights of the
    /// image and of the terminal are known.
    pub open spec fn can_have_overlay(self, line_no: int, col_no: int) -> bool {
        let span = self.chapter[line_no].spans@[col_no];
        &&& span.tag == Annotation::ImageRef
        &&& self.cache.height_of(span.text@) is Some
        &&& self.term_height > 0
    }

    /// Whether span `col_no` of line `line_no` is an image reference that can
    /// have an overlay and has none yet.
    pub open spec fn fresh(self, images: Seq<ImageView>, line_no: int, col_no: int) -> bool {
        self.can_have_overlay(line_no, col_no) && !has_record(images, line_no, col_no)
    }

    /// The overlay of the image reference at span `col_no` of line `line_no`,
    /// as the overlay number `index`: it stands at `row`, the row of its line
    /// in the frame.
    pub open spec fn new_image(self, index: int, line_no: int, col_no: int, row: int) -> ImageView {
        let span = self.chapter[line_no].spans@[col_no];
        ImageView {
            path: self.cache.target(span.text@),
            rows: row_span(
                self.viewport.grid_rows,
                self.cache.height_of(span.text@)->0 as int,
                self.term_height,
            ),
            line_no,
            col_no,
            identifier: decimal(index as nat),
            offset: row,
        }
    }

    /// The overlays after the first `n` spans of line `line_no`, which stands
    /// at `row` in the frame, have been looked at.
    pub open spec fn scan_line(self, images: Seq<ImageView>, line_no: int, n: int, row: int) -> Seq<
        ImageView,
    >
        decreases n,
    {
        if n <= 0 {
            images
        } else {
            let before = self.scan_line(images, line_no, n - 1, row);
            if self.fresh(before, line_no, n - 1) {
                before.push(self.new_image(before.len() as int, line_no, n - 1, row))
            } else {
                before
            }
        }
    }

    /// The rows that are left blank after line `line_no`, which stands at
    /// `row` in the frame: those that its overlays take up, as far as the
    /// grid has rows left.
    pub open spec fn blank_after(self, images: Seq<ImageView>, line_no: int, row: int) -> int {
        let wanted = reserve(images, line_no, self.viewport.grid_rows);
        let left = self.viewport.grid_rows - row - 1;
        if wanted < left {
            wanted
        } else {
            left
        }
    }

    /// The overlays after the lines of the frame from `line_no` on, the first
    /// of which stands at `row`, have been looked at: each line that has a row
    /// in the frame is looked at, and the rows that its overlays take up stand
    /// between it and the next.
    pub open spec fn scan(self, images: Seq<ImageView>, line_no: int, row: int) -> Seq<ImageView>
        decreases self.end() - line_no,
    {
        if line_no >= self.end() || row >= self.viewport.grid_rows {
            images
        } else {
            let met = self.scan_line(
                images,
                line_no,
                self.chapter[line_no].spans@.len() as int,
                row,
            );
            self.scan(met, line_no + 1, row + 1 + self.blank_after(met, line_no, row))
        }
    }

    /// Whether span `col_no` of line `line_no` is an image reference that has
    /// no overlay and whose image has not been extracted.
    pub open spec fn waits(self, images: Seq<ImageView>, line_no: int, col_no: int) -> bool {
        let span = self.chapter[line_no].spans@[col_no];
        &&& span.tag == Annotation::ImageRef
        &&& !has_record(images, line_no, col_no)
        &&& !self.cache.holds(span.text@)
    }

    /// The references among the first `n` spans of line `line_no` that wait
    /// for their images.
    pub open spec fn pending_in_line(self, images: Seq<ImageView>, line_no: int, n: int) -> Seq<
        Seq<char>,
    >
        decreases n,
    {
        if n <= 0 {
            Seq::empty()
        } else if self.waits(images, line_no, n - 1) {
            self.pending_in_line(images, line_no, n - 1).push(
                self.chapter[line_no].spans@[n - 1].text@,
            )
        } else {
            self.pending_in_line(images, line_no, n - 1)
        }
    }

    /// The references in the lines from `from` up to `line_no` that wait for
    /// their images.
    pub open spec fn pending(self, images: Seq<ImageView>, from: int, line_no: int) -> Seq<
        Seq<char>,
    >
        decreases line_no - from,
    {
        if line_no <= from {
            Seq::empty()
        } else {
            self.pending(images, from, line_no - 1) + self.pending_in_line(
                images,
                line_no - 1,
                self.chapter[line_no - 1].spans@.len() as int,
            )
        }
    }

    /// The line that the frame starts with.
    pub open spec fn first(self, images: Seq<ImageView>) -> int {
        anchor_line(images, self.viewport.top_line)
    }

    /// The overlays after a reconciliation: those that were known, as they
    /// stood, and after them a new one for each image reference that is fresh
    /// when its line gets a row in the frame.
    pub open spec fn reconciled(self, images: Seq<ImageView>) -> Seq<ImageView> {
        self.scan(images, self.first(images), 0)
    }

    /// The rows of the frame.
    pub open spec fn rows(self, images: Seq<ImageView>) -> Seq<RowView> {
        rows_from(
            images,
            self.chapter,
            self.first(images),
            self.end(),
            self.viewport.grid_rows,
            self.viewport.grid_rows,
        )
    }
}

/// What happens on the reading surface of a chapter: a key, or a resize of
/// the terminal to a grid of `maxy` rows by `maxx` columns, with the tagged
/// lines of the chapter laid out for the new width, or without them where
/// they could not be laid out.
#[derive(Debug)]
pub enum Event {
    Key(i32),
    Resized { maxx: i32, maxy: i32, lines: Option<Vec<Vec<TaggedString>>> },
}

/// What an event comes to on the reading surface of a chapter.
#[derive(Debug)]
pub enum Step {
    /// The chapter is left: the messages remove its overlays.
    Quit(Vec<UeConf>),
    /// The frame to show.
    Show(Frame),
    /// The event could not be followed, and the surface stays as it was.
    Failed(Error),
    /// Nothing to do but to wait for the next event.
    Wait,
}

/// A chapter on the reading surface.
#[derive(Debug)]
pub struct Epub {
    pub path: String,
    pub viewport: Viewport,
    pub chapter: Vec<StyledLine>,
    pub image_list: Vec<Image>,
    pub cache: ResourceCache,
}

impl Epub {
    /// The viewport is in order and starts within the chapter, the chapter is
    /// no longer than a chapter can be, the cache is in order, each overlay is
    /// named by its number in the list, and no two are attached to the same
    /// span.
    pub open spec fn sound(&self) -> bool {
        &&& self.viewport@.wf()
        &&& self.viewport@.top_line <= self.chapter@.len() <= MAX_LINES
        &&& self.cache.wf()
        &&& forall|i: int|
            0 <= i < self.image_list@.len() ==> {
                &&& (#[trigger] self.image_list@[i]).wf()
                &&& self.image_list@[i].ue_conf.identifier@ == decimal(i as nat)
            }
        &&& one_per_span(image_views(self.image_list@))
    }

    /// Whether the offset of each overlay, added to a first line of `top`,
    /// keeps the bound.
    pub open spec fn fits(&self, top: int) -> bool {
        forall|i: int|
            0 <= i < self.image_list@.len() ==> -OFFSET_LIMIT <= (
            #[trigger] self.image_list@[i])@.offset + top <= OFFSET_LIMIT
    }

    /// The surface is sound, and the offsets of its overlays keep the bound
    /// for the viewport as it stands.
    pub open spec fn wf(&self) -> bool {
        self.sound() && self.fits(self.viewport@.top_line)
    }

    /// The lines by which a scroll by `scroll_by` moves the top of the
    /// viewport: fewer than asked for where the scroll saturates.
    pub open spec fn shift_of(&self, scroll_by: int) -> int {
        self.viewport@.scroll_by(scroll_by, self.chapter@.len() as int).top_line
            - self.viewport@.top_line
    }

    /// Whether the overlays of this surface are those of `before`, each with
    /// its offset less `shift`, the lines by which the top of the viewport
    /// has moved, and after them the overlays that are new.
    pub open spec fn keeps_overlays_of(&self, before: Epub, shift: int) -> bool {
        &&& self.image_list@.len() >= before.image_list@.len()
        &&& forall|i: int|
            0 <= i < before.image_list@.len() ==> (#[trigger] self.image_list@[i])@ == (ImageView {
                offset: before.image_list@[i]@.offset - shift,
                ..before.image_list@[i]@
            })
    }

    /// Whether `frame` shows the surface as it stands: its rows are those of
    /// the lines from the first line of the frame on, with the rows that
    /// their overlays take up, and its messages draw the overlays that are to
    /// be drawn.
    pub open spec fn shown_by(&self, frame: Frame) -> bool {
        &&& frame.indent == self.viewport@.grid_cols / 8
        &&& row_views(frame.rows@) == self.scene(0).rows(image_views(self.image_list@))
        &&& message_views(frame.overlays@) == messages(
            image_views(self.image_list@),
            self.viewport@.grid_rows,
        )
    }

    /// What a reconciliation goes by on a terminal of `term_height` pixels.
    pub open spec fn scene(&self, term_height: int) -> Scene {
        Scene {
            chapter: self.chapter@,
            cache: self.cache,
            viewport: self.viewport@,
            term_height,
        }
    }

    /// The width in columns that the lines of the chapter are laid out for:
    /// the grid without a margin of an eighth of it on either side.
    pub open spec fn layout_width(cols: int) -> int {
        cols - 2 * (cols / 8)
    }

    /// The rows of the grid on a terminal of `lines` rows after a resize: one
    /// row is kept free.
    pub open spec fn rows_kept(lines: int) -> int {
        if lines > i32::MIN {
            lines - 1
        } else {
            lines
        }
    }

    /// A reading surface for the chapter with the tagged lines `lines`, on a
    /// grid of `maxy` rows by `maxx` columns, with the scratch directory of
    /// the session for its images.
    pub fn new(
        maxx: i32,
        maxy: i32,
        path: String,
        scratch_dir: String,
        lines: &Vec<Vec<TaggedString>>,
    ) -> (epub: Epub)
        requires
            lines@.len() <= MAX_LINES,
        ensures
            epub.wf(),
            epub.path@ == path@,
            epub.viewport@ == ViewportState::first_page(
                grid_dimension(maxy as int),
                grid_dimension(maxx as int),
            ),
            styles_all(epub.chapter@, lines@),
            epub.image_list@.len() == 0,
            epub.cache.scratch_dir@ == scratch_dir@,
            epub.cache.entries@.len() == 0,
    {
        Epub {
            path,
            viewport: Viewport::new(to_grid_dimension(maxy), to_grid_dimension(maxx)),
            chapter: style_lines(lines),
            image_list: Vec::new(),
            cache: ResourceCache::new(scratch_dir),
        }
    }

    /// The width in columns to lay the lines of the chapter out for.
    pub fn text_width(&self) -> (w: u16)
        ensures
            w == Self::layout_width(self.viewport@.grid_cols),
    {
        let cols: u16 = self.viewport.grid_cols();
        cols - 2 * (cols / 8)
    }

    /// The width in columns to lay the lines of a chapter out for on a
    /// terminal of `maxx` columns.
    pub fn width_for(maxx: i32) -> (w: u16)
        ensures
            w == Self::layout_width(grid_dimension(maxx as int)),
    {
        let cols: u16 = to_grid_dimension(maxx);
        cols - 2 * (cols / 8)
    }

    /// The rows of the grid on a terminal of `lines` rows after a resize.
    pub fn rows_after_resize(lines: i32) -> (rows: i32)
        ensures
            rows == Self::rows_kept(lines as int),
    {
        if lines > i32::MIN {
            lines - 1
        } else {
            lines
        }
    }

    /// The lines by which a scroll by `scroll_by` moves the top of the
    /// viewport.
    pub fn scroll_shift(&self, scroll_by: i32) -> (shift: i64)
        requires
            self.sound(),
        ensures
            shift == self.shift_of(scroll_by as int),
            -MAX_LINES <= shift <= MAX_LINES,
    {
        let mut moved: Viewport = self.viewport;
        moved.scroll_by(scroll_by, self.chapter.len());
        moved.top_line() as i64 - self.viewport.top_line() as i64
    }

    /// Whether the offset of each overlay, added to a first line of `top`,
    /// keeps the bound.
    pub fn offsets_fit(&self, top: i64) -> (r: bool)
        ensures
            r == self.fits(top as int),
    {
        let mut i: usize = 0;
        while i < self.image_list.len()
            invariant
                i <= self.image_list@.len(),
                forall|k: int|
                    0 <= k < i ==> -OFFSET_LIMIT <= (#[trigger] self.image_list@[k])@.offset + top
                        <= OFFSET_LIMIT,
            decreases self.image_list@.len() - i,
        {
            let sum: i128 = self.image_list[i].ue_conf.y as i128 + top as i128;
            if sum < -(OFFSET_LIMIT as i128) || sum > OFFSET_LIMIT as i128 {
                return false;
            }
            i = i + 1;
        }
        true
    }

    /// Scrolls the text by `scroll_by` lines, saturating at both ends of the
    /// chapter, and leaves the overlays where they stand. The offsets must
    /// keep their bound for the new viewport.
    pub fn scroll_text(&mut self, scroll_by: i32)
        requires
            old(self).wf(),
            old(self).fits(
                old(self).viewport@.scroll_by(
                    scroll_by as int,
                    old(self).chapter@.len() as int,
                ).top_line,
            ),
        ensures
            final(self).wf(),
            final(self).viewport@ == old(self).viewport@.scroll_by(
                scroll_by as int,
                old(self).chapter@.len() as int,
            ),
            final(self).path == old(self).path,
            final(self).chapter == old(self).chapter,
            final(self).image_list == old(self).image_list,
            final(self).cache == old(self).cache,
    {
        self.viewport.scroll_by(scroll_by, self.chapter.len());
    }

    /// Moves every overlay for a scroll of the text by `scroll_by` lines: the
    /// offset of each loses the lines by which the top of the viewport moves,
    /// which are none where the scroll is pinned at an end of the chapter.
    /// The viewport stays. The offsets must keep their bound.
    pub fn scroll_image(&mut self, scroll_by: i32)
        requires
            old(self).wf(),
            old(self).fits(old(self).viewport@.top_line - old(self).shift_of(scroll_by as int)),
        ensures
            final(self).wf(),
            image_views(final(self).image_list@) == shifted(
                image_views(old(self).image_list@),
                old(self).shift_of(scroll_by as int),
            ),
            final(self).image_list@.len() == old(self).image_list@.len(),
            final(self).keeps_overlays_of(*old(self), old(self).shift_of(scroll_by as int)),
            final(self).path == old(self).path,
            final(self).chapter == old(self).chapter,
            final(self).viewport == old(self).viewport,
            final(self).cache == old(self).cache,
    {
        let shift: i64 = self.scroll_shift(scroll_by);
        self.shift_images(shift);
    }

    /// Takes `shift` rows off the offset of every overlay.
    fn shift_images(&mut self, shift: i64)
        requires
            old(self).sound(),
            forall|i: int|
                0 <= i < old(self).image_list@.len() ==> i64::MIN
                    <= (#[trigger] old(self).image_list@[i])@.offset - shift <= i64::MAX,
        ensures
            final(self).sound(),
            image_views(final(self).image_list@) == shifted(
                image_views(old(self).image_list@),
                shift as int,
            ),
            final(self).image_list@.len() == old(self).image_list@.len(),
            final(self).keeps_overlays_of(*old(self), shift as int),
            final(self).path == old(self).path,
            final(self).chapter == old(self).chapter,
            final(self).viewport == old(self).viewport,
            final(self).cache == old(self).cache,
    {
        let mut i: usize = 0;
        while i < self.image_list.len()
            invariant
                self.sound(),
                self.path == old(self).path,
                self.chapter == old(self).chapter,
                self.viewport == old(self).viewport,
                self.cache == old(self).cache,
                self.image_list@.len() == old(self).image_list@.len(),
                i <= self.image_list@.len(),
                forall|k: int|
                    0 <= k < old(self).image_list@.len() ==> i64::MIN
                        <= (#[trigger] old(self).image_list@[k])@.offset - shift <= i64::MAX,
                forall|k: int|
                    0 <= k < i ==> (#[trigger] self.image_list@[k])@ == (ImageView {
                        offset: old(self).image_list@[k]@.offset - shift,
                        ..old(self).image_list@[k]@
                    }),
                forall|k: int|
                    i <= k < self.image_list@.len() ==> (#[trigger] self.image_list@[k])
                        == old(self).image_list@[k],
            decreases self.image_list@.len() - i,
        {
            let ghost before = image_views(self.image_list@);
            let offset: i64 = self.image_list[i].ue_conf.y;
            self.image_list[i].ue_conf.y = offset - shift;
            proof {
                let after = image_views(self.image_list@);
                assert forall|a: int, b: int| 0 <= a < b < after.len() implies !((
                #[trigger] after[a]).line_no == (#[trigger] after[b]).line_no && after[a].col_no
                    == after[b].col_no) by {
                    assert(before[a].line_no == after[a].line_no && before[a].col_no
                        == after[a].col_no);
                    assert(before[b].line_no == after[b].line_no && before[b].col_no
                        == after[b].col_no);
                }
            }
            i = i + 1;
        }
        assert(image_views(self.image_list@) =~= shifted(
            image_views(old(self).image_list@),
            shift as int,
        ));
    }

    /// The overlay of the image in `image_path`, which takes its rows from its
    /// height of `image_height` pixels on a terminal of `term_height` pixels,
    /// `row_no` rows below the top of the viewport, for span `col_no` of line
    /// `line_no`. There is none where the terminal reports no height, the
    /// file has no name, or the row is beyond what an offset can hold.
    pub fn create_image_from_path(
        &self,
        image_path: String,
        row_no: usize,
        col_no: usize,
        line_no: usize,
        image_height: u32,
        term_height: u16,
    ) -> (r: Option<Image>)
        ensures
            r is Some <==> term_height > 0 && image_path@.len() > 0 && row_no <= i64::MAX,
            r matches Some(image) ==> image.wf() && image@ == (ImageView {
                path: image_path@,
                rows: row_span(
                    self.viewport@.grid_rows,
                    image_height as int,
                    term_height as int,
                ),
                line_no: line_no as int,
                col_no: col_no as int,
                identifier: decimal(self.image_list@.len()),
                offset: row_no as int,
            }),
    {
        if image_path.as_str().unicode_len() == 0 || row_no as u64 > i64::MAX as u64 {
            return None;
        }
        match compute_row_span(self.viewport.grid_rows(), image_height, term_height) {
            None => None,
            Some(rows) => {
                let mut identifier = String::new();
                push_decimal(&mut identifier, self.image_list.len() as u64);
                let ue_conf = UeConf {
                    action: Actions::Add,
                    identifier,
                    x: 0,
                    y: row_no as i64,
                    path: image_path.clone(),
                    width: None,
                    height: None,
                    scaler: None,
                };
                Some(Image { image_path, rows, line_no, col_no, ue_conf })
            },
        }
    }

    /// Whether an overlay is attached to span `col_no` of line `line_no`.
    pub fn find_record(&self, line_no: usize, col_no: usize) -> (r: bool)
        ensures
            r == has_record(image_views(self.image_list@), line_no as int, col_no as int),
    {
        let mut i: usize = 0;
        while i < self.image_list.len()
            invariant
                i <= self.image_list@.len(),
                forall|k: int|
                    0 <= k < i ==> !((#[trigger] image_views(self.image_list@)[k]).line_no
                        == line_no && image_views(self.image_list@)[k].col_no == col_no),
            decreases self.image_list@.len() - i,
        {
            if self.image_list[i].line_no == line_no && self.image_list[i].col_no == col_no {
                assert(image_views(self.image_list@)[i as int].line_no == line_no);
                return true;
            }
            i = i + 1;
        }
        false
    }

    /// Looks at the lines of the frame and gives an overlay to each image
    /// reference that is fresh when it is met, at the row of its line.
    fn scan(&mut self, term_height: u16)
        requires
            old(self).wf(),
        ensures
            final(self).wf(),
            image_views(final(self).image_list@) == old(self).scene(
                term_height as int,
            ).reconciled(image_views(old(self).image_list@)),
            final(self).keeps_overlays_of(*old(self), 0),
            final(self).path == old(self).path,
            final(self).chapter == old(self).chapter,
            final(self).viewport == old(self).viewport,
            final(self).cache == old(self).cache,
    {
        let ghost scene = self.scene(term_height as int);
        let ghost known = image_views(self.image_list@);
        let grid_rows: u16 = self.viewport.grid_rows();
        let first: usize = self.first_line();
        let end: usize = if self.viewport.bottom_line() < self.chapter.len() {
            self.viewport.bottom_line()
        } else {
            self.chapter.len()
        };
        let mut l: usize = first;
        let mut row: u16 = 0;
        while l < end && row < grid_rows
            invariant
                self.wf(),
                self.path == old(self).path,
                self.chapter == old(self).chapter,
                self.viewport == old(self).viewport,
                self.cache == old(self).cache,
                scene == self.scene(term_height as int),
                grid_rows == scene.viewport.grid_rows,
                end == scene.end(),
                row <= grid_rows,
                scene.scan(image_views(self.image_list@), l as int, row as int) == scene.scan(
                    known,
                    first as int,
                    0,
                ),
            decreases end - l,
        {
            let ghost at_line = image_views(self.image_list@);
            let n: usize = self.chapter[l].spans.len();
            let mut c: usize = 0;
            while c < n
                invariant
                    self.wf(),
                    self.path == old(self).path,
                    self.chapter == old(self).chapter,
                    self.viewport == old(self).viewport,
                    self.cache == old(self).cache,
                    scene == self.scene(term_height as int),
                    grid_rows == scene.viewport.grid_rows,
                    l < end,
                    end <= self.chapter@.len(),
                    row < grid_rows,
                    n == self.chapter@[l as int].spans@.len(),
                    c <= n,
                    image_views(self.image_list@) == scene.scan_line(
                        at_line,
                        l as int,
                        c as int,
                        row as int,
                    ),
                decreases n - c,
            {
                let ghost before = image_views(self.image_list@);
                let is_image = match self.chapter[l].spans[c].tag {
                    Annotation::ImageRef => true,
                    _ => false,
                };
                if is_image && term_height > 0 && !self.find_record(l, c) {
                    match self.cache.height(&self.chapter[l].spans[c].text) {
                        Some(height) => {
                            let path = self.cache.path_for(&self.chapter[l].spans[c].text);
                            match self.create_image_from_path(
                                path,
                                row as usize,
                                c,
                                l,
                                height,
                                term_height,
                            ) {
                                Some(image) => {
                                    self.image_list.push(image);
                                    assert(image_views(self.image_list@) =~= before.push(
                                        scene.new_image(
                                            before.len() as int,
                                            l as int,
                                            c as int,
                                            row as int,
                                        ),
                                    ));
                                },
                                None => {},
                            }
                        },
                        None => {},
                    }
                }
                c = c + 1;
            }
            let blank: u16 = self.reserved(l, grid_rows - row - 1);
            row = row + 1 + blank;
            l = l + 1;
        }
        proof {
            lemma_scan_keeps_known(scene, known, first as int, 0);
            let after = image_views(self.image_list@);
            assert forall|i: int| 0 <= i < known.len() implies (#[trigger] self.image_list@[i])@
                == known[i] by {
                assert(after.take(known.len() as int)[i] == after[i]);
            }
        }
    }

    /// The messages that draw the overlays which are to be drawn.
    pub fn overlay_messages(&self) -> (out: Vec<UeConf>)
        requires
            self.wf(),
        ensures
            message_views(out@) == messages(
                image_views(self.image_list@),
                self.viewport@.grid_rows,
            ),
    {
        let grid_rows: u16 = self.viewport.grid_rows();
        let ghost images = image_views(self.image_list@);
        let mut out: Vec<UeConf> = Vec::new();
        let mut i: usize = 0;
        while i < self.image_list.len()
            invariant
                self.wf(),
                images == image_views(self.image_list@),
                i <= self.image_list@.len(),
                message_views(out@) == messages(images.take(i as int), grid_rows as int),
            decreases self.image_list@.len() - i,
        {
            proof {
                assert(images.take(i + 1).drop_last() =~= images.take(i as int));
            }
            let image = &self.image_list[i];
            if image.is_eligible(grid_rows) {
                let message = UeConf {
                    action: Actions::Add,
                    identifier: image.ue_conf.identifier.clone(),
                    x: 0,
                    y: image.ue_conf.y,
                    path: image.ue_conf.path.clone(),
                    width: None,
                    height: None,
                    scaler: None,
                };
                out.push(message);
            }
            i = i + 1;
        }
        assert(images.take(i as int) =~= images);
        out
    }

    /// The line that a frame starts with.
    pub fn first_line(&self) -> (line: usize)
        requires
            self.wf(),
        ensures
            line == anchor_line(image_views(self.image_list@), self.viewport@.top_line),
    {
        let ghost images = image_views(self.image_list@);
        let ghost top = self.viewport@.top_line;
        let mut i: usize = 0;
        assert(images.skip(0) =~= images);
        while i < self.image_list.len()
            invariant
                self.wf(),
                images == image_views(self.image_list@),
                top == self.viewport@.top_line,
                i <= self.image_list@.len(),
                anchor_line(images, top) == anchor_line(images.skip(i as int), top),
            decreases self.image_list@.len() - i,
        {
            proof {
                assert(images.skip(i as int).drop_first() =~= images.skip(i + 1));
            }
            if is_cut_by_top(self.image_list[i].ue_conf.y, self.image_list[i].rows) {
                return self.image_list[i].line_no;
            }
            i = i + 1;
        }
        self.viewport.top_line()
    }

    /// The rows that the overlays attached to line `line_no` take up after it,
    /// as far as `cap` rows go.
    fn reserved(&self, line_no: usize, cap: u16) -> (r: u16)
        requires
            self.wf(),
        ensures
            r == if reserve(
                image_views(self.image_list@),
                line_no as int,
                self.viewport@.grid_rows,
            ) < cap {
                reserve(image_views(self.image_list@), line_no as int, self.viewport@.grid_rows)
            } else {
                cap as int
            },
    {
        let grid_rows: u16 = self.viewport.grid_rows();
        let ghost images = image_views(self.image_list@);
        let mut taken: u16 = 0;
        let mut i: usize = 0;
        while i < self.image_list.len()
            invariant
                self.wf(),
                images == image_views(self.image_list@),
                grid_rows == self.viewport@.grid_rows,
                i <= self.image_list@.len(),
                0 <= reserve(images.take(i as int), line_no as int, grid_rows as int),
                taken == if reserve(images.take(i as int), line_no as int, grid_rows as int)
                    < cap {
                    reserve(images.take(i as int), line_no as int, grid_rows as int)
                } else {
                    cap as int
                },
            decreases self.image_list@.len() - i,
        {
            proof {
                assert(images.take(i + 1).drop_last() =~= images.take(i as int));
            }
            let image = &self.image_list[i];
            if image.line_no == line_no && image.is_eligible(grid_rows) {
                proof {
                    crate::overlay::lemma_rows_consumed_bounds(
                        image.ue_conf.y as int,
                        image.rows as int,
                        grid_rows as int,
                    );
                }
                let more: u16 = compute_rows_consumed(image.ue_conf.y, image.rows, grid_rows);
                taken = if more >= cap - taken {
                    cap
                } else {
                    taken + more
                };
            }
            i = i + 1;
        }
        assert(images.take(i as int) =~= images);
        taken
    }

    /// The pieces that paint line `line_no`.
    pub fn paint_line(&self, line_no: usize) -> (out: Vec<Piece>)
        requires
            line_no < self.chapter@.len(),
        ensures
            out@.map_values(|p: Piece| p@) == pieces(
                image_views(self.image_list@),
                self.chapter@[line_no as int].spans@,
                line_no as int,
                self.chapter@[line_no as int].spans@.len() as int,
            ),
    {
        let ghost images = image_views(self.image_list@);
        let ghost spans = self.chapter@[line_no as int].spans@;
        let n: usize = self.chapter[line_no].spans.len();
        let mut out: Vec<Piece> = Vec::new();
        let mut c: usize = 0;
        while c < n
            invariant
                line_no < self.chapter@.len(),
                images == image_views(self.image_list@),
                spans == self.chapter@[line_no as int].spans@,
                n == spans.len(),
                c <= n,
                out@.map_values(|p: Piece| p@) == pieces(images, spans, line_no as int, c as int),
            decreases n - c,
        {
            let span = &self.chapter[line_no].spans[c];
            let is_image = match span.tag {
                Annotation::ImageRef => true,
                _ => false,
            };
            if !(is_image && self.find_record(line_no, c)) {
                let piece = paint_span(span);
                out.push(piece);
            }
            c = c + 1;
        }
        out
    }

    /// The rows of the frame.
    pub fn frame_rows(&self) -> (rows: Vec<Row>)
        requires
            self.wf(),
        ensures
            row_views(rows@) == self.scene(0).rows(image_views(self.image_list@)),
    {
        let ghost images = image_views(self.image_list@);
        let ghost scene = self.scene(0);
        let grid_rows: u16 = self.viewport.grid_rows();
        let first: usize = self.first_line();
        let end: usize = if self.viewport.bottom_line() < self.chapter.len() {
            self.viewport.bottom_line()
        } else {
            self.chapter.len()
        };
        let mut rows: Vec<Row> = Vec::new();
        let mut l: usize = first;
        while l < end && rows.len() < grid_rows as usize
            invariant
                self.wf(),
                images == image_views(self.image_list@),
                scene == self.scene(0),
                grid_rows == self.viewport@.grid_rows,
                end == scene.end(),
                end <= self.chapter@.len(),
                first <= l,
                rows@.len() <= grid_rows,
                row_views(rows@) + rows_from(
                    images,
                    scene.chapter,
                    l as int,
                    end as int,
                    grid_rows - rows@.len(),
                    grid_rows as int,
                ) == scene.rows(images),
            decreases end - l,
        {
            let ghost painted = rows@;
            let ghost budget: int = grid_rows - rows@.len();
            let pieces = self.paint_line(l);
            rows.push(Row::Line { line_no: l, pieces });
            let blank: u16 = self.reserved(l, (grid_rows as usize - rows.len()) as u16);
            let mut k: u16 = 0;
            while k < blank
                invariant
                    k <= blank,
                    rows@.len() == painted.len() + 1 + k,
                    blank <= budget - 1,
                    budget == grid_rows - painted.len(),
                    row_views(rows@) == row_views(painted) + seq![
                        line_row(images, scene.chapter, l as int),
                    ] + blank_rows(k as int),
                decreases blank - k,
            {
                let ghost so_far = rows@;
                rows.push(Row::Blank);
                assert(row_views(rows@) =~= row_views(so_far).push(RowView::Blank));
                k = k + 1;
            }
            l = l + 1;
        }
        rows
    }

    /// Reconciles the overlays with the lines of the frame and makes the
    /// frame.
    fn paint(&mut self, term_height: u16) -> (frame: Frame)
        requires
            old(self).wf(),
        ensures
            final(self).wf(),
            image_views(final(self).image_list@) == old(self).scene(
                term_height as int,
            ).reconciled(image_views(old(self).image_list@)),
            final(self).keeps_overlays_of(*old(self), 0),
            final(self).shown_by(frame),
            final(self).path == old(self).path,
            final(self).chapter == old(self).chapter,
            final(self).viewport == old(self).viewport,
            final(self).cache == old(self).cache,
    {
        self.scan(term_height);
        let overlays = self.overlay_messages();
        let rows = self.frame_rows();
        Frame { indent: self.viewport.grid_cols() / 8, rows, overlays }
    }

    /// Shows the chapter where the viewport stands, on a terminal that is
    /// `term_height` pixels high: every known overlay stays where it stands,
    /// each image reference that is fresh when its line gets a row in the
    /// frame gets its overlay at that row, and the frame shows the outcome.
    pub fn display_chapter(&mut self, term_height: u16) -> (frame: Frame)
        requires
            old(self).wf(),
        ensures
            final(self).wf(),
            image_views(final(self).image_list@) == old(self).scene(
                term_height as int,
            ).reconciled(image_views(old(self).image_list@)),
            final(self).keeps_overlays_of(*old(self), 0),
            final(self).shown_by(frame),
            final(self).path == old(self).path,
            final(self).chapter == old(self).chapter,
            final(self).viewport == old(self).viewport,
            final(self).cache == old(self).cache,
    {
        self.paint(term_height)
    }

    /// Scrolls text and overlays by `scroll_by` lines: the offset of each
    /// overlay loses the lines by which the top of the viewport moves.
    pub fn scroll(&mut self, scroll_by: i32)
        requires
            old(self).wf(),
        ensures
            final(self).wf(),
            final(self).viewport@ == old(self).viewport@.scroll_by(
                scroll_by as int,
                old(self).chapter@.len() as int,
            ),
            image_views(final(self).image_list@) == shifted(
                image_views(old(self).image_list@),
                old(self).shift_of(scroll_by as int),
            ),
            final(self).image_list@.len() == old(self).image_list@.len(),
            final(self).keeps_overlays_of(*old(self), old(self).shift_of(scroll_by as int)),
            final(self).path == old(self).path,
            final(self).chapter == old(self).chapter,
            final(self).cache == old(self).cache,
    {
        let shift: i64 = self.scroll_shift(scroll_by);
        self.shift_images(shift);
        self.viewport.scroll_by(scroll_by, self.chapter.len());
    }

    /// Scrolls by `scroll_by` lines and shows the chapter there, on a
    /// terminal that is `term_height` pixels high: the offset of each known
    /// overlay loses the lines by which the top of the viewport moves, and
    /// the overlays are reconciled with the lines of the frame.
    pub fn epub_draw(&mut self, scroll_by: i32, term_height: u16) -> (frame: Frame)
        requires
            old(self).wf(),
        ensures
            final(self).wf(),
            final(self).viewport@ == old(self).viewport@.scroll_by(
                scroll_by as int,
                old(self).chapter@.len() as int,
            ),
            image_views(final(self).image_list@) == final(self).scene(
                term_height as int,
            ).reconciled(
                shifted(image_views(old(self).image_list@), old(self).shift_of(scroll_by as int)),
            ),
            final(self).keeps_overlays_of(*old(self), old(self).shift_of(scroll_by as int)),
            final(self).shown_by(frame),
            final(self).path == old(self).path,
            final(self).chapter == old(self).chapter,
            final(self).cache == old(self).cache,
    {
        self.scroll(scroll_by);
        self.paint(term_height)
    }

    /// Takes the outcome of the extraction of the image behind `reference`, as
    /// the cache of the surface does.
    pub fn image_extracted(&mut self, reference: &String, bytes: Option<&Vec<u8>>) -> (r: Result<
        String,
        Error,
    >)
        requires
            old(self).wf(),
        ensures
            final(self).wf(),
            final(self).path == old(self).path,
            final(self).chapter == old(self).chapter,
            final(self).viewport == old(self).viewport,
            final(self).image_list == old(self).image_list,
            final(self).cache.extracted_from(old(self).cache, reference@, bytes_of(bytes), r),
    {
        self.cache.extracted(reference, bytes)
    }

    /// Forgets every overlay and gives the messages that remove them from the
    /// compositor, in the order of the list.
    pub fn clear_overlays(&mut self) -> (out: Vec<UeConf>)
        requires
            old(self).wf(),
        ensures
            final(self).wf(),
            final(self).image_list@.len() == 0,
            message_views(out@) == removals(image_views(old(self).image_list@)),
            final(self).path == old(self).path,
            final(self).chapter == old(self).chapter,
            final(self).viewport == old(self).viewport,
            final(self).cache == old(self).cache,
    {
        let ghost images = image_views(self.image_list@);
        let mut out: Vec<UeConf> = Vec::new();
        let mut i: usize = 0;
        while i < self.image_list.len()
            invariant
                self.wf(),
                *self == *old(self),
                images == image_views(self.image_list@),
                i <= self.image_list@.len(),
                out@.len() == i,
                forall|k: int|
                    0 <= k < i ==> (#[trigger] out@[k])@ == UeConfView::removal(
                        images[k].identifier,
                    ),
            decreases self.image_list@.len() - i,
        {
            let message = UeConf {
                action: Actions::Remove,
                identifier: self.image_list[i].ue_conf.identifier.clone(),
                x: 0,
                y: 0,
                path: String::new(),
                width: None,
                height: None,
                scaler: None,
            };
            out.push(message);
            i = i + 1;
        }
        self.image_list = Vec::new();
        out
    }

    /// Takes the dimensions of a resized grid and the lines laid out for it.
    /// Where the lines could not be laid out the surface stays as it was.
    /// Otherwise the new lines replace the old; the bottom of the viewport
    /// moves by the change in rows, but both its ends stay in order and within
    /// the new lines, so that a layout that has become shorter cuts the range;
    /// and every overlay is kept, its offset less the lines by which the top
    /// of the viewport has moved.
    pub fn resize(&mut self, maxx: i32, maxy: i32, lines: Option<&Vec<Vec<TaggedString>>>) -> (r:
        Result<(), Error>)
        requires
            old(self).wf(),
            lines matches Some(l) ==> l@.len() <= MAX_LINES,
        ensures
            final(self).wf(),
            final(self).resized_from(*old(self), maxx as int, maxy as int, lines_of(lines), r),
    {
        match lines {
            None => Err(Error::LayoutRegenerationFailed),
            Some(l) => {
                let styled = style_lines(l);
                let top: usize = self.viewport.top_line();
                let moved: usize = if top <= styled.len() {
                    top
                } else {
                    styled.len()
                };
                self.shift_images(moved as i64 - top as i64);
                self.chapter = styled;
                self.viewport.resize(
                    to_grid_dimension(maxy),
                    to_grid_dimension(maxx),
                    self.chapter.len(),
                );
                Ok(())
            },
        }
    }

    /// Whether this is the surface `before` after a resize to a grid of
    /// `maxy` rows by `maxx` columns with the lines `lines`, which came to
    /// `r`.
    pub open spec fn resized_from(
        &self,
        before: Epub,
        maxx: int,
        maxy: int,
        lines: Option<Seq<Vec<TaggedString>>>,
        r: Result<(), Error>,
    ) -> bool {
        match lines {
            None => {
                &&& r matches Err(e)
                &&& e == Error::LayoutRegenerationFailed
                &&& *self == before
            },
            Some(l) => {
                &&& r is Ok
                &&& styles_all(self.chapter@, l)
                &&& self.viewport@ == before.viewport@.resize(
                    grid_dimension(maxy),
                    grid_dimension(maxx),
                    l.len() as int,
                )
                &&& image_views(self.image_list@) == shifted(
                    image_views(before.image_list@),
                    self.viewport@.top_line - before.viewport@.top_line,
                )
                &&& self.image_list@.len() == before.image_list@.len()
                &&& self.keeps_overlays_of(
                    before,
                    self.viewport@.top_line - before.viewport@.top_line,
                )
                &&& self.path == before.path
                &&& self.cache == before.cache
            },
        }
    }

    /// Takes the tagged lines of another chapter of the book: they replace
    /// the lines of this one, the viewport goes back to the first page, and
    /// the overlays of the chapter that is left are forgotten: the messages
    /// that remove them come back.
    pub fn parse_epub_from_path(&mut self, lines: &Vec<Vec<TaggedString>>) -> (removed: Vec<UeConf>)
        requires
            old(self).wf(),
            lines@.len() <= MAX_LINES,
        ensures
            final(self).wf(),
            message_views(removed@) == removals(image_views(old(self).image_list@)),
            final(self).image_list@.len() == 0,
            styles_all(final(self).chapter@, lines@),
            final(self).viewport@ == ViewportState::first_page(
                old(self).viewport@.grid_rows,
                old(self).viewport@.grid_cols,
            ),
            final(self).path == old(self).path,
            final(self).cache == old(self).cache,
    {
        let removed = self.clear_overlays();
        self.chapter = style_lines(lines);
        self.viewport = Viewport::new(self.viewport.grid_rows(), self.viewport.grid_cols());
        removed
    }

    /// The image references that have no overlay and whose images have not
    /// been extracted, in the lines from the first line of the frame to the
    /// last visible one, in the order of the lines.
    pub fn pending_images(&self) -> (out: Vec<String>)
        requires
            self.wf(),
        ensures
            out@.map_values(|s: String| s@) == self.scene(0).pending(
                image_views(self.image_list@),
                self.scene(0).first(image_views(self.image_list@)),
                self.scene(0).end(),
            ),
    {
        let ghost scene = self.scene(0);
        let ghost images = image_views(self.image_list@);
        let first: usize = self.first_line();
        let end: usize = if self.viewport.bottom_line() < self.chapter.len() {
            self.viewport.bottom_line()
        } else {
            self.chapter.len()
        };
        let mut out: Vec<String> = Vec::new();
        let mut l: usize = first;
        assert(out@.map_values(|s: String| s@) =~= scene.pending(images, first as int, l as int));
        while l < end
            invariant
                self.wf(),
                scene == self.scene(0),
                images == image_views(self.image_list@),
                end == scene.end(),
                first <= l,
                l <= end || (end < first && l == first),
                out@.map_values(|s: String| s@) == scene.pending(images, first as int, l as int),
            decreases end - l,
        {
            let n: usize = self.chapter[l].spans.len();
            let mut c: usize = 0;
            assert(out@.map_values(|s: String| s@) =~= scene.pending(images, first as int, l as int)
                + scene.pending_in_line(images, l as int, 0));
            while c < n
                invariant
                    self.wf(),
                    scene == self.scene(0),
                    images == image_views(self.image_list@),
                    first <= l < end,
                    end <= self.chapter@.len(),
                    n == self.chapter@[l as int].spans@.len(),
                    c <= n,
                    out@.map_values(|s: String| s@) == scene.pending(
                        images,
                        first as int,
                        l as int,
                    ) + scene.pending_in_line(images, l as int, c as int),
                decreases n - c,
            {
                let span = &self.chapter[l].spans[c];
                let is_image = match span.tag {
                    Annotation::ImageRef => true,
                    _ => false,
                };
                if is_image && !self.find_record(l, c) && self.cache.find(&span.text).is_none() {
                    let ghost listed = out@;
                    out.push(span.text.clone());
                    assert(out@.map_values(|s: String| s@) =~= listed.map_values(
                        |s: String| s@,
                    ).push(span.text@));
                }
                assert(out@.map_values(|s: String| s@) =~= scene.pending(
                    images,
                    first as int,
                    l as int,
                ) + scene.pending_in_line(images, l as int, c + 1));
                c = c + 1;
            }
            l = l + 1;
        }
        out
    }

    /// Takes an event on a terminal that is `term_height` pixels high.
    ///
    /// A key that scrolls gives the frame after the scroll; `q` leaves the
    /// chapter, with the messages that remove its overlays; any other key
    /// changes nothing. A resize with the lines laid out for the new width
    /// resizes the surface and gives the frame of the redraw; a resize
    /// without them fails, and the surface stays as it was, with the layout
    /// it had.
    pub fn display_epub_chapter_screen(&mut self, event: &Event, term_height: u16) -> (step: Step)
        requires
            old(self).wf(),
            event matches Event::Resized { lines: Some(l), .. } ==> l@.len() <= MAX_LINES,
        ensures
            final(self).wf(),
            final(self).path == old(self).path,
            final(self).cache == old(self).cache,
            final(self).stepped_from(*old(self), *event, term_height as int, step),
    {
        match event {
            Event::Key(key) => match command(*key, self.viewport.grid_rows()) {
                Command::Quit => Step::Quit(self.clear_overlays()),
                Command::Scroll(delta) => Step::Show(self.epub_draw(delta, term_height)),
                _ => Step::Wait,
            },
            Event::Resized { maxx, maxy, lines } => {
                let laid_out = match lines {
                    Some(l) => Some(l),
                    None => None,
                };
                match self.resize(*maxx, *maxy, laid_out) {
                    Ok(_) => Step::Show(self.paint(term_height)),
                    Err(e) => Step::Failed(e),
                }
            },
        }
    }

    /// Whether this is the surface `before` after `event`, which came to
    /// `step`, on a terminal that is `term_height` pixels high.
    pub open spec fn stepped_from(&self, before: Epub, event: Event, term_height: int, step: Step) -> bool {
        match event {
            Event::Key(key) => match command_of(key as int, before.viewport@.grid_rows) {
                Command::Quit => {
                    &&& step matches Step::Quit(removed)
                    &&& message_views(removed@) == removals(image_views(before.image_list@))
                    &&& self.image_list@.len() == 0
                    &&& self.viewport == before.viewport
                    &&& self.chapter == before.chapter
                },
                Command::Scroll(delta) => {
                    &&& step matches Step::Show(frame)
                    &&& self.shown_by(frame)
                    &&& self.chapter == before.chapter
                    &&& self.viewport@ == before.viewport@.scroll_by(
                        delta as int,
                        before.chapter@.len() as int,
                    )
                    &&& image_views(self.image_list@) == self.scene(term_height).reconciled(
                        shifted(image_views(before.image_list@), before.shift_of(delta as int)),
                    )
                    &&& self.keeps_overlays_of(before, before.shift_of(delta as int))
                },
                _ => step is Wait && *self == before,
            },
            Event::Resized { maxx, maxy, lines } => match lines {
                Some(l) => {
                    &&& step matches Step::Show(frame)
                    &&& self.shown_by(frame)
                    &&& styles_all(self.chapter@, l@)
                    &&& self.viewport@ == before.viewport@.resize(
                        grid_dimension(maxy as int),
                        grid_dimension(maxx as int),
                        l@.len() as int,
                    )
                    &&& image_views(self.image_list@) == self.scene(term_height).reconciled(
                        shifted(
                            image_views(before.image_list@),
                            self.viewport@.top_line - before.viewport@.top_line,
                        ),
                    )
                    &&& self.keeps_overlays_of(
                        before,
                        self.viewport@.top_line - before.viewport@.top_line,
                    )
                },
                None => {
                    &&& step matches Step::Failed(e)
                    &&& e == Error::LayoutRegenerationFailed
                    &&& *self == before
                },
            },
        }
    }
}

/// The tagged lines of a chapter that may be missing.
pub open spec fn lines_of(lines: Option<&Vec<Vec<TaggedString>>>) -> Option<Seq<Vec<TaggedString>>> {
    match lines {
        Some(l) => Some(l@),
        None => None,
    }
}

/// The positions in a list of the overlays that are to be drawn, in order.
pub open spec fn drawn(images: Seq<ImageView>, grid_rows: int) -> Seq<int>
    decreases images.len(),
{
    if images.len() == 0 {
        Seq::empty()
    } else if images.last().eligible(grid_rows) {
        drawn(images.drop_last(), grid_rows).push(images.len() - 1)
    } else {
        drawn(images.drop_last(), grid_rows)
    }
}

/// Each message of a frame draws an overlay that is to be drawn, and the
/// messages follow the list: no overlay that is wholly outside the grid is
/// sent to the compositor, and none is sent twice.
pub proof fn lemma_messages_draw_eligible(images: Seq<ImageView>, grid_rows: int)
    ensures
        drawn(images, grid_rows).len() == messages(images, grid_rows).len(),
        forall|j: int|
            0 <= j < drawn(images, grid_rows).len() ==> {
                let i = #[trigger] drawn(images, grid_rows)[j];
                &&& 0 <= i < images.len()
                &&& images[i].eligible(grid_rows)
                &&& messages(images, grid_rows)[j] == images[i].message()
            },
        forall|j: int, k: int|
            0 <= j < k < drawn(images, grid_rows).len() ==> drawn(images, grid_rows)[j] < drawn(
                images,
                grid_rows,
            )[k],
    decreases images.len(),
{
    if images.len() > 0 {
        lemma_messages_draw_eligible(images.drop_last(), grid_rows);
    }
}

/// An overlay of a list is drawn in a frame exactly when it is to be drawn:
/// its place is among those of the messages of the frame if and only if its
/// offset and its rows make it eligible.
pub proof fn lemma_drawn_iff_eligible(images: Seq<ImageView>, grid_rows: int, i: int)
    requires
        0 <= i < images.len(),
    ensures
        drawn(images, grid_rows).contains(i) <==> images[i].eligible(grid_rows),
    decreases images.len(),
{
    lemma_messages_draw_eligible(images.drop_last(), grid_rows);
    let front = drawn(images.drop_last(), grid_rows);
    let all = drawn(images, grid_rows);
    if i < images.len() - 1 {
        lemma_drawn_iff_eligible(images.drop_last(), grid_rows, i);
        assert(images.drop_last()[i] == images[i]);
        if front.contains(i) {
            let k = choose|k: int| 0 <= k < front.len() && front[k] == i;
            assert(all[k] == i);
        }
        if all.contains(i) {
            let k = choose|k: int| 0 <= k < all.len() && all[k] == i;
            assert(front[k] == i);
        }
    } else {
        if images.last().eligible(grid_rows) {
            assert(all[all.len() - 1] == i);
        } else {
            if all.contains(i) {
                let k = choose|k: int| 0 <= k < all.len() && all[k] == i;
                assert(0 <= front[k] < images.len() - 1);
            }
        }
    }
}

/// Where the overlays of a list are named by their numbers in it, as those of
/// a reading surface are, no two messages of a frame carry the same
/// identifier.
pub proof fn lemma_messages_are_distinct(images: Seq<ImageView>, grid_rows: int)
    requires
        forall|i: int| 0 <= i < images.len() ==> (#[trigger] images[i]).identifier == decimal(i as nat),
    ensures
        forall|j: int, k: int|
            0 <= j < k < messages(images, grid_rows).len() ==> (#[trigger] messages(
                images,
                grid_rows,
            )[j]).identifier != (#[trigger] messages(images, grid_rows)[k]).identifier,
{
    lemma_messages_draw_eligible(images, grid_rows);
    let sent = messages(images, grid_rows);
    let from = drawn(images, grid_rows);
    assert forall|j: int, k: int| 0 <= j < k < sent.len() implies (#[trigger] sent[j]).identifier
        != (#[trigger] sent[k]).identifier by {
        let a = from[j];
        let b = from[k];
        if decimal(a as nat) == decimal(b as nat) {
            crate::text::lemma_decimal_is_injective(a as nat, b as nat);
        }
    }
}

/// The rows that the overlays of a line take up are never negative.
pub proof fn lemma_reserve_is_not_negative(images: Seq<ImageView>, line_no: int, grid_rows: int)
    requires
        grid_rows >= 0,
        forall|i: int| 0 <= i < images.len() ==> (#[trigger] images[i]).rows >= 0,
    ensures
        reserve(images, line_no, grid_rows) >= 0,
    decreases images.len(),
{
    if images.len() > 0 {
        lemma_reserve_is_not_negative(images.drop_last(), line_no, grid_rows);
        let last = images.last();
        if last.eligible(grid_rows) {
            crate::overlay::lemma_rows_consumed_bounds(last.offset, last.rows, grid_rows);
        }
    }
}

/// A frame never has more rows than it has been given: the rows that the
/// overlays take up are cut where the grid ends.
pub proof fn lemma_rows_fit(
    images: Seq<ImageView>,
    chapter: Seq<StyledLine>,
    line_no: int,
    end: int,
    budget: int,
    grid_rows: int,
)
    requires
        grid_rows >= 0,
        forall|i: int| 0 <= i < images.len() ==> (#[trigger] images[i]).rows >= 0,
    ensures
        rows_from(images, chapter, line_no, end, budget, grid_rows).len() <= if budget > 0 {
            budget
        } else {
            0
        },
    decreases end - line_no,
{
    if line_no < end && budget > 0 {
        lemma_reserve_is_not_negative(images, line_no, grid_rows);
        let wanted = reserve(images, line_no, grid_rows);
        let blank = if wanted < budget - 1 {
            wanted
        } else {
            budget - 1
        };
        lemma_rows_fit(images, chapter, line_no + 1, end, budget - 1 - blank, grid_rows);
    }
}

/// Whether no two overlays of a list are attached to the same span.
pub open spec fn one_per_span(images: Seq<ImageView>) -> bool {
    forall|i: int, j: int|
        0 <= i < j < images.len() ==> !((#[trigger] images[i]).line_no == (#[trigger] images[j]).line_no
            && images[i].col_no == images[j].col_no)
}

/// Looking at the spans of a line destroys no overlay and moves none: those
/// that were known stand at the head of the list as they stood.
pub proof fn lemma_scan_line_keeps_known(
    scene: Scene,
    images: Seq<ImageView>,
    line_no: int,
    n: int,
    row: int,
)
    ensures
        scene.scan_line(images, line_no, n, row).len() >= images.len(),
        scene.scan_line(images, line_no, n, row).take(images.len() as int) == images,
    decreases n,
{
    if n > 0 {
        lemma_scan_line_keeps_known(scene, images, line_no, n - 1, row);
        let before = scene.scan_line(images, line_no, n - 1, row);
        let after = scene.scan_line(images, line_no, n, row);
        assert(after.take(images.len() as int) =~= before.take(images.len() as int));
    } else {
        assert(images.take(images.len() as int) =~= images);
    }
}

/// A reconciliation destroys no overlay and moves none: those that were
/// known stand at the head of the list as they stood, and the new ones
/// follow.
pub proof fn lemma_scan_keeps_known(scene: Scene, images: Seq<ImageView>, line_no: int, row: int)
    ensures
        scene.scan(images, line_no, row).len() >= images.len(),
        scene.scan(images, line_no, row).take(images.len() as int) == images,
    decreases scene.end() - line_no,
{
    if line_no >= scene.end() || row >= scene.viewport.grid_rows {
        assert(images.take(images.len() as int) =~= images);
    } else {
        let n = scene.chapter[line_no].spans@.len() as int;
        let met = scene.scan_line(images, line_no, n, row);
        lemma_scan_line_keeps_known(scene, images, line_no, n, row);
        let next = row + 1 + scene.blank_after(met, line_no, row);
        lemma_scan_keeps_known(scene, met, line_no + 1, next);
        let after = scene.scan(met, line_no + 1, next);
        assert(after.take(images.len() as int) =~= after.take(met.len() as int).take(
            images.len() as int,
        ));
    }
}

/// Looking at the spans of a line gives an overlay to each of them that can
/// have one, attaches no second overlay to a span, and puts each new overlay
/// at the row of the line.
pub proof fn lemma_scan_line_covers(
    scene: Scene,
    images: Seq<ImageView>,
    line_no: int,
    n: int,
    row: int,
)
    requires
        one_per_span(images),
    ensures
        one_per_span(scene.scan_line(images, line_no, n, row)),
        forall|c: int|
            0 <= c < n && scene.can_have_overlay(line_no, c) ==> has_record(
                scene.scan_line(images, line_no, n, row),
                line_no,
                c,
            ),
        forall|i: int|
            images.len() <= i < scene.scan_line(images, line_no, n, row).len() ==> {
                &&& (#[trigger] scene.scan_line(images, line_no, n, row)[i]).offset == row
                &&& scene.scan_line(images, line_no, n, row)[i].line_no == line_no
            },
    decreases n,
{
    if n > 0 {
        lemma_scan_line_covers(scene, images, line_no, n - 1, row);
        lemma_scan_line_keeps_known(scene, images, line_no, n - 1, row);
        let before = scene.scan_line(images, line_no, n - 1, row);
        let after = scene.scan_line(images, line_no, n, row);
        if scene.fresh(before, line_no, n - 1) {
            assert(after[before.len() as int].line_no == line_no);
            assert forall|i: int, j: int| 0 <= i < j < after.len() implies !((
            #[trigger] after[i]).line_no == (#[trigger] after[j]).line_no && after[i].col_no
                == after[j].col_no) by {
                if j == before.len() {
                    assert(before[i] == after[i]);
                    if after[i].line_no == line_no && after[i].col_no == n - 1 {
                        assert(has_record(before, line_no, n - 1));
                    }
                } else {
                    assert(before[i] == after[i] && before[j] == after[j]);
                }
            }
        }
        assert forall|c: int| 0 <= c < n && scene.can_have_overlay(line_no, c) implies has_record(
            after,
            line_no,
            c,
        ) by {
            if c < n - 1 {
                let i = choose|i: int|
                    0 <= i < before.len() && (#[trigger] before[i]).line_no == line_no
                        && before[i].col_no == c;
                assert(after[i] == before[i]);
            }
        }
        assert forall|i: int| images.len() <= i < after.len() implies (#[trigger] after[i]).offset
            == row && after[i].line_no == line_no by {
            if i < before.len() {
                assert(after[i] == before[i]);
            }
        }
    }
}

/// A reconciliation attaches no second overlay to a span.
pub proof fn lemma_scan_is_one_per_span(scene: Scene, images: Seq<ImageView>, line_no: int, row: int)
    requires
        one_per_span(images),
    ensures
        one_per_span(scene.scan(images, line_no, row)),
    decreases scene.end() - line_no,
{
    if !(line_no >= scene.end() || row >= scene.viewport.grid_rows) {
        let n = scene.chapter[line_no].spans@.len() as int;
        let met = scene.scan_line(images, line_no, n, row);
        lemma_scan_line_covers(scene, images, line_no, n, row);
        lemma_scan_is_one_per_span(
            scene,
            met,
            line_no + 1,
            row + 1 + scene.blank_after(met, line_no, row),
        );
    }
}

/// A scroll takes from the offset of every overlay the lines by which the
/// top of the viewport moves, and the scroll back gives them again: where
/// neither is pinned at an end of the chapter, the overlays stand as before.
pub proof fn lemma_shift_and_back(images: Seq<ImageView>, shift: int, i: int)
    requires
        0 <= i < images.len(),
    ensures
        shifted(images, shift).len() == images.len(),
        shifted(images, shift)[i] == (ImageView { offset: images[i].offset - shift, ..images[i] }),
        shifted(shifted(images, shift), -shift) == images,
{
    assert(shifted(shifted(images, shift), -shift) =~= images);
}

/// An overlay that has its offset from a row of the grid and takes a row or
/// more is to be drawn: a new overlay is drawn in the frame that creates it.
pub proof fn lemma_overlay_in_the_grid_is_eligible(image: ImageView, grid_rows: int)
    requires
        image.rows >= 1,
        0 <= image.offset < grid_rows,
    ensures
        image.eligible(grid_rows),
{
}

} // verus!
