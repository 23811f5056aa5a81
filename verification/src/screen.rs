//! The reading surface of a chapter of plain text: the text is laid out in
//! padded lines for the width of the grid and read through a viewport.

use crate::epub::{grid_dimension, to_grid_dimension};
use crate::renderer::{
    command, command_of, row_views, Attributes, Command, Piece, PieceView, Row, RowView,
};
use crate::text::{
    join, join_with, lemma_split_pieces, parse_i32, parse_number, push_signed_decimal,
    push_spaces, signed_decimal, spaces, split, split_on, texts, trim, trimmed,
};
use crate::viewport::{Viewport, ViewportState};
use vstd::prelude::*;
use vstd::string::*;
use vstd::utf8::encode_utf8;

verus! {

/// A paragraph while it is laid out: the lines that are full, the line that
/// is being filled, and the length in bytes of the words on that line, a
/// space after each.
pub struct Wrap {
    pub done: Seq<Seq<char>>,
    pub current: Seq<char>,
    pub length: int,
}

/// The margin on either side of the text in a grid of `cols` columns.
pub open spec fn margin(cols: int) -> int {
    cols / 8
}

/// The end of a line: the right margin and the line break.
pub open spec fn line_end(cols: int) -> Seq<char> {
    spaces(margin(cols)) + seq!['\n']
}

/// The first, empty line of a paragraph.
pub open spec fn wrap_start(cols: int) -> Wrap {
    Wrap { done: Seq::empty(), current: spaces(margin(cols)), length: 0 }
}

/// The paragraph after one more word: the word goes on the line that is being
/// filled, with a space after it, unless it brings the length of the line to
/// the width of the text or beyond; then that line is closed and the word
/// starts the next one.
pub open spec fn wrap_word(w: Wrap, word: Seq<char>, cols: int) -> Wrap {
    let length = w.length + encode_utf8(word).len() + 1;
    if length >= cols - 2 * margin(cols) {
        Wrap {
            done: w.done.push(w.current + line_end(cols)),
            current: spaces(margin(cols)) + word + seq![' '],
            length: encode_utf8(word).len() as int + 1,
        }
    } else {
        Wrap { done: w.done, current: w.current + word + seq![' '], length }
    }
}

/// The paragraph after the given words.
pub open spec fn wrap_words(words: Seq<Seq<char>>, cols: int) -> Wrap
    decreases words.len(),
{
    if words.len() == 0 {
        wrap_start(cols)
    } else {
        wrap_word(wrap_words(words.drop_last(), cols), words.last(), cols)
    }
}

/// The lines of a paragraph in a grid of `cols` columns: its words, which
/// single spaces part, fill one line after the other between the margins, and
/// an empty line follows the last.
pub open spec fn padded(text: Seq<char>, cols: int) -> Seq<Seq<char>> {
    let w = wrap_words(split(text, ' '), cols);
    w.done.push(w.current + line_end(cols)).push(seq!['\n'])
}

/// The line at the foot of a chapter, which names the keys that lead to the
/// chapters before and after.
pub open spec fn footer(cols: int) -> Seq<char> {
    "<-- previous chapter (h)"@ + spaces(
        if cols > 44 {
            cols - 44
        } else {
            0
        },
    ) + "next chapter (l) -->"@
}

/// The lines of the paragraphs of a chapter, after an empty first line.
pub open spec fn body(raw: Seq<Seq<char>>, cols: int) -> Seq<Seq<char>>
    decreases raw.len(),
{
    if raw.len() == 0 {
        seq![seq!['\n']]
    } else {
        body(raw.drop_last(), cols) + padded(raw.last(), cols)
    }
}

/// The lines of a chapter: an empty line, the lines of its paragraphs, and the
/// foot.
pub open spec fn laid_out(raw: Seq<Seq<char>>, cols: int) -> Seq<Seq<char>> {
    body(raw, cols).push(footer(cols))
}

/// The row of line `line_no` of a document: its text in one piece, and the
/// second line, which holds the title, bold and in the accent colour.
pub open spec fn plain_row(doc: Seq<String>, line_no: int) -> RowView {
    RowView::Line {
        line_no,
        pieces: seq![
            PieceView {
                text: doc[line_no]@,
                attributes: if line_no == 1 {
                    seq![Attributes::Bold]
                } else {
                    Seq::empty()
                },
                accent: line_no == 1,
            },
        ],
    }
}

/// The rows of the visible lines of a document.
pub open spec fn plain_rows(doc: Seq<String>, viewport: ViewportState) -> Seq<RowView> {
    let end = if viewport.bottom_line < doc.len() {
        viewport.bottom_line
    } else {
        doc.len() as int
    };
    Seq::new(
        if end > viewport.top_line {
            (end - viewport.top_line) as nat
        } else {
            0
        },
        |i: int| plain_row(doc, viewport.top_line + i),
    )
}

/// The address of the chapter that lies `offset` chapters after the one at
/// `url`. The number of a chapter stands in the fifth part of its address, as
/// the parts lie between slashes: after the first hyphen of that part and
/// before the first full stop that follows. There is no such address where
/// `url` holds no number there, or where the number of the other chapter does
/// not fit in 32 bits.
pub open spec fn chapter_url(url: Seq<char>, offset: int) -> Option<Seq<char>> {
    let parts = split(url, '/');
    if parts.len() <= 4 {
        None
    } else {
        let name = split(parts[4], '-');
        if name.len() <= 1 {
            None
        } else {
            let tail = split(name[1], '.');
            match parse_i32(tail[0]) {
                None => None,
                Some(n) => if i32::MIN <= n + offset <= i32::MAX {
                    Some(
                        join(
                            parts.update(
                                4,
                                join(
                                    name.update(
                                        1,
                                        join(
                                            tail.update(0, signed_decimal(n + offset)),
                                            seq!['.'],
                                        ),
                                    ),
                                    seq!['-'],
                                ),
                            ),
                            seq!['/'],
                        ),
                    )
                } else {
                    None
                },
            }
        }
    }
}

/// The paragraphs of a chapter: its title, where it has one that is not
/// blank, and the first texts of its paragraphs that are not blank, each
/// without the white space around it.
pub open spec fn chapter_paragraphs(
    title: Option<Seq<char>>,
    paragraphs: Seq<Option<Seq<char>>>,
) -> Seq<Seq<char>>
    decreases paragraphs.len(),
{
    if paragraphs.len() == 0 {
        match title {
            Some(t) => if trimmed(t).len() > 0 {
                seq![trimmed(t)]
            } else {
                Seq::empty()
            },
            None => Seq::empty(),
        }
    } else {
        let before = chapter_paragraphs(title, paragraphs.drop_last());
        match paragraphs.last() {
            Some(p) => if trimmed(p).len() > 0 {
                before.push(trimmed(p))
            } else {
                before
            },
            None => before,
        }
    }
}

/// The text of a string that may be missing.
pub open spec fn optional_text(s: Option<String>) -> Option<Seq<char>> {
    match s {
        Some(t) => Some(t@),
        None => None,
    }
}

/// The texts of a list of strings of which some are missing.
pub open spec fn optional_texts(strings: Seq<Option<String>>) -> Seq<Option<Seq<char>>> {
    strings.map_values(|s: Option<String>| optional_text(s))
}

/// What happens on the reading surface of a chapter of plain text: a key, or
/// a resize of the terminal to `maxy` rows by `maxx` columns.
#[derive(Clone, Copy, Debug)]
pub enum ScreenEvent {
    Key(i32),
    Resized { maxx: i32, maxy: i32 },
}

/// What an event comes to on the reading surface of a chapter of plain text.
#[derive(Debug)]
pub enum ScreenStep {
    /// The chapter is left.
    Quit,
    /// The rows to show.
    Show(Vec<Row>),
    /// The chapter at the address is to be fetched and shown.
    Load(String),
    /// Nothing to do but to wait for the next event.
    Wait,
}

/// A chapter of plain text on the reading surface.
#[derive(Debug)]
pub struct Screen {
    pub raw_doc: Vec<String>,
    pub doc: Vec<String>,
    pub viewport: Viewport,
    pub url: String,
    pub path: String,
}

impl Screen {
    /// The viewport is in order.
    pub open spec fn wf(&self) -> bool {
        self.viewport@.wf()
    }

    /// A reading surface with no text yet, for a terminal of `maxy` rows by
    /// `maxx` columns: two of the rows are kept free. `path` names the file of
    /// the recently read titles.
    pub fn new(path: String, maxx: i32, maxy: i32) -> (screen: Screen)
        ensures
            screen.wf(),
            screen.path@ == path@,
            screen.url@.len() == 0,
            screen.raw_doc@.len() == 0,
            screen.doc@.len() == 0,
            screen.viewport@ == ViewportState::first_page(
                grid_dimension(maxy - 2),
                grid_dimension(maxx as int),
            ),
    {
        let rows: u16 = if maxy < 2 {
            0
        } else {
            to_grid_dimension(maxy - 2)
        };
        Screen {
            raw_doc: Vec::new(),
            doc: Vec::new(),
            viewport: Viewport::new(rows, to_grid_dimension(maxx)),
            url: String::new(),
            path,
        }
    }

    /// Scrolls by `scroll_by` lines, saturating at both ends of the document.
    pub fn scroll(&mut self, scroll_by: i32)
        requires
            old(self).wf(),
        ensures
            final(self).wf(),
            final(self).viewport@ == old(self).viewport@.scroll_by(
                scroll_by as int,
                old(self).doc@.len() as int,
            ),
            final(self).raw_doc == old(self).raw_doc,
            final(self).doc == old(self).doc,
            final(self).url == old(self).url,
            final(self).path == old(self).path,
    {
        self.viewport.scroll_by(scroll_by, self.doc.len());
    }

    /// The rows of the visible lines.
    pub fn draw(&self) -> (rows: Vec<Row>)
        requires
            self.wf(),
        ensures
            row_views(rows@) == plain_rows(self.doc@, self.viewport@),
    {
        let top: usize = self.viewport.top_line();
        let end: usize = if self.viewport.bottom_line() < self.doc.len() {
            self.viewport.bottom_line()
        } else {
            self.doc.len()
        };
        let mut rows: Vec<Row> = Vec::new();
        let mut l: usize = top;
        while l < end
            invariant
                top == self.viewport@.top_line,
                end == if self.viewport@.bottom_line < self.doc@.len() {
                    self.viewport@.bottom_line
                } else {
                    self.doc@.len() as int
                },
                top <= l,
                l <= end || (end < top && l == top),
                rows@.len() == l - top,
                forall|i: int| 0 <= i < rows@.len() ==> (#[trigger] rows@[i])@ == plain_row(
                    self.doc@,
                    top + i,
                ),
            decreases end - l,
        {
            let mut attributes: Vec<Attributes> = Vec::new();
            if l == 1 {
                attributes.push(Attributes::Bold);
            }
            let piece = Piece { text: self.doc[l].clone(), attributes, accent: l == 1 };
            let mut pieces: Vec<Piece> = Vec::new();
            pieces.push(piece);
            let row = Row::Line { line_no: l, pieces };
            assert(row@ =~= plain_row(self.doc@, l as int)) by {
                assert(pieces@.map_values(|p: Piece| p@) =~= seq![piece@]);
            }
            rows.push(row);
            l = l + 1;
        }
        rows
    }

    /// Turns to the chapter that lies `offset` chapters after this one, where
    /// the address of this one holds its number, and says whether it did.
    pub fn change_chapter(&mut self, offset: i32) -> (changed: bool)
        ensures
            match chapter_url(old(self).url@, offset as int) {
                Some(url) => changed && final(self).url@ == url,
                None => !changed && final(self).url == old(self).url,
            },
            final(self).raw_doc == old(self).raw_doc,
            final(self).doc == old(self).doc,
            final(self).viewport == old(self).viewport,
            final(self).path == old(self).path,
    {
        let mut parts = split_on(self.url.as_str(), '/');
        if parts.len() <= 4 {
            return false;
        }
        let mut name = split_on(parts[4].as_str(), '-');
        if name.len() <= 1 {
            return false;
        }
        let mut tail = split_on(name[1].as_str(), '.');
        proof {
            lemma_split_pieces(name@[1]@, '.');
        }
        match parse_number(tail[0].as_str()) {
            None => false,
            Some(n) => {
                let moved: i64 = n as i64 + offset as i64;
                if moved < i32::MIN as i64 || moved > i32::MAX as i64 {
                    return false;
                }
                let ghost old_parts = texts(parts@);
                let ghost old_name = texts(name@);
                let ghost old_tail = texts(tail@);
                let mut number = String::new();
                push_signed_decimal(&mut number, moved);
                tail[0] = number;
                assert(texts(tail@) =~= old_tail.update(0, signed_decimal(moved as int)));
                name[1] = join_with(&tail, ".");
                proof {
                    reveal_strlit(".");
                    assert("."@ =~= seq!['.']);
                }
                assert(texts(name@) =~= old_name.update(1, join(texts(tail@), seq!['.'])));
                parts[4] = join_with(&name, "-");
                proof {
                    reveal_strlit("-");
                    assert("-"@ =~= seq!['-']);
                }
                assert(texts(parts@) =~= old_parts.update(4, join(texts(name@), seq!['-'])));
                self.url = join_with(&parts, "/");
                proof {
                    reveal_strlit("/");
                    assert("/"@ =~= seq!['/']);
                }
                true
            },
        }
    }

    /// Takes the text of a chapter, its title and the first text of each of
    /// its paragraphs, as far as they have any, and lays it out.
    pub fn take_chapter(&mut self, title: Option<String>, paragraphs: &Vec<Option<String>>)
        requires
            old(self).wf(),
        ensures
            final(self).wf(),
            texts(final(self).raw_doc@) == chapter_paragraphs(
                optional_text(title),
                optional_texts(paragraphs@),
            ),
            texts(final(self).doc@) == laid_out(
                texts(final(self).raw_doc@),
                old(self).viewport@.grid_cols,
            ),
            final(self).viewport == old(self).viewport,
            final(self).url == old(self).url,
            final(self).path == old(self).path,
    {
        let ghost heading = optional_text(title);
        let ghost all = optional_texts(paragraphs@);
        let mut result: Vec<String> = Vec::new();
        match title {
            Some(t) => {
                let line = trim(t.as_str());
                if line.as_str().unicode_len() > 0 {
                    result.push(line);
                }
            },
            None => {},
        }
        let mut i: usize = 0;
        while i < paragraphs.len()
            invariant
                all == optional_texts(paragraphs@),
                i <= paragraphs@.len(),
                texts(result@) == chapter_paragraphs(heading, all.take(i as int)),
            decreases paragraphs@.len() - i,
        {
            proof {
                assert(all.take(i + 1).drop_last() =~= all.take(i as int));
            }
            match &paragraphs[i] {
                Some(p) => {
                    let line = trim(p.as_str());
                    if line.as_str().unicode_len() > 0 {
                        result.push(line);
                    }
                },
                None => {},
            }
            i = i + 1;
        }
        assert(all.take(i as int) =~= all);
        self.raw_doc = result;
        self.parse_doc();
    }

    /// Takes the dimensions of a resized terminal, of which two rows are kept
    /// free: the chapter is laid out for the new width; the bottom of the
    /// viewport moves by the change in rows, but both its ends stay in order
    /// and within the new lines; and the rows to show come back.
    pub fn resized(&mut self, maxx: i32, maxy: i32) -> (rows: Vec<Row>)
        requires
            old(self).wf(),
        ensures
            final(self).wf(),
            texts(final(self).doc@) == laid_out(
                texts(old(self).raw_doc@),
                grid_dimension(maxx as int),
            ),
            final(self).viewport@ == old(self).viewport@.resize(
                grid_dimension(maxy - 2),
                grid_dimension(maxx as int),
                final(self).doc@.len() as int,
            ),
            row_views(rows@) == plain_rows(final(self).doc@, final(self).viewport@),
            final(self).raw_doc == old(self).raw_doc,
            final(self).url == old(self).url,
            final(self).path == old(self).path,
    {
        let rows: u16 = if maxy < 2 {
            0
        } else {
            to_grid_dimension(maxy - 2)
        };
        let cols: u16 = to_grid_dimension(maxx);
        self.doc = lay_out(&self.raw_doc, cols);
        self.viewport.resize(rows, cols, self.doc.len());
        self.draw()
    }

    /// Takes an event. A key that scrolls gives the rows after the scroll; `q`
    /// leaves the chapter, with the viewport back on the first page; a key
    /// that asks for another chapter turns to it, where the address of this
    /// chapter holds its number, with the viewport back on the first page,
    /// and gives the address to fetch; any other key changes nothing. A
    /// resize lays the chapter out for the new width, moves the bottom of the
    /// viewport by the change in rows, and gives the rows to show.
    pub fn draw_chapter_screen(&mut self, event: &ScreenEvent) -> (step: ScreenStep)
        requires
            old(self).wf(),
        ensures
            final(self).wf(),
            final(self).raw_doc == old(self).raw_doc,
            final(self).path == old(self).path,
            match *event {
                ScreenEvent::Key(key) => {
                    &&& final(self).doc == old(self).doc
                    &&& match command_of(key as int, old(self).viewport@.grid_rows) {
                        Command::Quit => {
                            &&& step is Quit
                            &&& final(self).url == old(self).url
                            &&& final(self).viewport@ == ViewportState::first_page(
                                old(self).viewport@.grid_rows,
                                old(self).viewport@.grid_cols,
                            )
                        },
                        Command::Scroll(delta) => {
                            &&& step matches ScreenStep::Show(rows)
                            &&& final(self).url == old(self).url
                            &&& final(self).viewport@ == old(self).viewport@.scroll_by(
                                delta as int,
                                old(self).doc@.len() as int,
                            )
                            &&& row_views(rows@) == plain_rows(
                                final(self).doc@,
                                final(self).viewport@,
                            )
                        },
                        Command::PreviousChapter => final(self).turned(*old(self), step, -1),
                        Command::NextChapter => final(self).turned(*old(self), step, 1),
                        Command::Ignore => step is Wait && *final(self) == *old(self),
                    }
                },
                ScreenEvent::Resized { maxx, maxy } => {
                    &&& step matches ScreenStep::Show(rows)
                    &&& final(self).url == old(self).url
                    &&& texts(final(self).doc@) == laid_out(
                        texts(old(self).raw_doc@),
                        grid_dimension(maxx as int),
                    )
                    &&& final(self).viewport@ == old(self).viewport@.resize(
                        grid_dimension(maxy - 2),
                        grid_dimension(maxx as int),
                        final(self).doc@.len() as int,
                    )
                    &&& row_views(rows@) == plain_rows(final(self).doc@, final(self).viewport@)
                },
            },
    {
        match event {
            ScreenEvent::Key(key) => match command(*key, self.viewport.grid_rows()) {
                Command::Quit => {
                    self.viewport = Viewport::new(
                        self.viewport.grid_rows(),
                        self.viewport.grid_cols(),
                    );
                    ScreenStep::Quit
                },
                Command::Scroll(delta) => {
                    self.scroll(delta);
                    ScreenStep::Show(self.draw())
                },
                Command::PreviousChapter => self.turn(-1),
                Command::NextChapter => self.turn(1),
                Command::Ignore => ScreenStep::Wait,
            },
            ScreenEvent::Resized { maxx, maxy } => ScreenStep::Show(self.resized(*maxx, *maxy)),
        }
    }

    /// Whether this is the surface `before` after a turn by `offset` chapters
    /// that came to `step`: where the address holds the number of the chapter,
    /// the address is that of the other chapter, the viewport is back on the
    /// first page, and the step gives the address to fetch; else nothing has
    /// changed and there is nothing to do.
    pub open spec fn turned(&self, before: Screen, step: ScreenStep, offset: int) -> bool {
        match chapter_url(before.url@, offset) {
            Some(url) => {
                &&& step matches ScreenStep::Load(address)
                &&& address@ == url
                &&& self.url@ == url
                &&& self.viewport@ == ViewportState::first_page(
                    before.viewport@.grid_rows,
                    before.viewport@.grid_cols,
                )
            },
            None => step is Wait && *self == before,
        }
    }

    /// Turns to the chapter that lies `offset` chapters after this one.
    fn turn(&mut self, offset: i32) -> (step: ScreenStep)
        requires
            old(self).wf(),
        ensures
            final(self).wf(),
            final(self).turned(*old(self), step, offset as int),
            final(self).raw_doc == old(self).raw_doc,
            final(self).doc == old(self).doc,
            final(self).path == old(self).path,
    {
        if self.change_chapter(offset) {
            self.viewport = Viewport::new(self.viewport.grid_rows(), self.viewport.grid_cols());
            ScreenStep::Load(self.url.clone())
        } else {
            ScreenStep::Wait
        }
    }

    /// The lines of the paragraph `x` for the width of the grid.
    pub fn add_padding(&self, x: String) -> (lines: Vec<String>)
        ensures
            texts(lines@) == padded(x@, self.viewport@.grid_cols),
    {
        pad(x.as_str(), self.viewport.grid_cols())
    }

    /// Lays the paragraphs of the chapter out for the width of the grid.
    pub fn parse_doc(&mut self)
        requires
            old(self).wf(),
        ensures
            final(self).wf(),
            texts(final(self).doc@) == laid_out(
                texts(old(self).raw_doc@),
                old(self).viewport@.grid_cols,
            ),
            final(self).raw_doc == old(self).raw_doc,
            final(self).viewport == old(self).viewport,
            final(self).url == old(self).url,
            final(self).path == old(self).path,
    {
        self.doc = lay_out(&self.raw_doc, self.viewport.grid_cols());
    }
}

/// The lines of the paragraph `x` in a grid of `cols` columns.
pub fn pad(x: &str, cols: u16) -> (lines: Vec<String>)
ensures
    texts(lines@) == padded(x@, cols as int),
{
    let padding: usize = (cols / 8) as usize;
    let line_len: u64 = (cols - 2 * (cols / 8)) as u64;
    let words = split_on(x, ' ');
    let mut lines: Vec<String> = Vec::new();
    let mut result = String::new();
    push_spaces(&mut result, padding);
    let mut length: u64 = 0;
    let mut i: usize = 0;
    while i < words.len()
        invariant
            padding == margin(cols as int),
            line_len == cols - 2 * margin(cols as int),
            i <= words@.len(),
            texts(lines@) == wrap_words(texts(words@).take(i as int), cols as int).done,
            result@ == wrap_words(texts(words@).take(i as int), cols as int).current,
            length <= 0x1_0000,
            length == wrap_words(texts(words@).take(i as int), cols as int).length || (length
                == 0x1_0000 && wrap_words(
                texts(words@).take(i as int),
                cols as int,
            ).length >= 0x1_0000),
        decreases words@.len() - i,
    {
        proof {
            let all = texts(words@);
            assert(all.take(i + 1).drop_last() =~= all.take(i as int));
        }
        let ghost before = wrap_words(texts(words@).take(i as int), cols as int);
        let bytes: usize = words[i].as_str().as_bytes().len();
        let size: u64 = if bytes >= 0x1_0000 {
            0x1_0000
        } else {
            bytes as u64 + 1
        };
        if length + size >= line_len {
            push_spaces(&mut result, padding);
            result.push('\n');
            assert(result@ =~= before.current + line_end(cols as int));
            lines.push(result);
            result = String::new();
            push_spaces(&mut result, padding);
            result.append(words[i].as_str());
            result.push(' ');
            length = size;
        } else {
            result.append(words[i].as_str());
            result.push(' ');
            length = length + size;
        }
        i = i + 1;
    }
    proof {
        assert(texts(words@).take(i as int) =~= texts(words@));
    }
    let ghost last = result@;
    push_spaces(&mut result, padding);
    result.push('\n');
    assert(result@ =~= last + line_end(cols as int));
    lines.push(result);
    let mut empty = String::new();
    empty.push('\n');
    lines.push(empty);
    lines
}

/// The lines of a chapter with the paragraphs `raw` in a grid of `cols`
/// columns.
pub fn lay_out(raw: &Vec<String>, cols: u16) -> (doc: Vec<String>)
ensures
    texts(doc@) == laid_out(texts(raw@), cols as int),
{
    let mut result: Vec<String> = Vec::new();
    let mut first = String::new();
    first.push('\n');
    result.push(first);
    let mut i: usize = 0;
    while i < raw.len()
        invariant
            i <= raw@.len(),
            texts(result@) == body(texts(raw@).take(i as int), cols as int),
        decreases raw@.len() - i,
    {
        proof {
            let all = texts(raw@);
            assert(all.take(i + 1).drop_last() =~= all.take(i as int));
        }
        let mut parsed = pad(raw[i].as_str(), cols);
        result.append(&mut parsed);
        i = i + 1;
    }
    proof {
        assert(texts(raw@).take(i as int) =~= texts(raw@));
    }
    let mut bottom_line = String::from_str("<-- previous chapter (h)");
    push_spaces(
        &mut bottom_line,
        if cols > 44 {
            (cols - 44) as usize
        } else {
            0
        },
    );
    bottom_line.append("next chapter (l) -->");
    result.push(bottom_line);
    result
}

} // verus!
