//! What a frame is made of: rows of styled pieces of text and rows left blank
//! for overlays. The painting itself is the caller's; the functions of the
//! terminal layer that stand here paint nothing.

use crate::styled::{Annotation, Span};
use crate::ueberzug::UeConf;
use vstd::prelude::*;
use vstd::string::*;

verus! {

/// What a terminal can do to a piece of text.
#[derive(Clone, Copy, Debug, PartialEq, Eq, Structural)]
pub enum Attributes {
    Strike,
    Bold,
    Italic,
    Underline,
}

/// A piece of text to paint: the attributes to switch on for it, and whether
/// it is painted in the accent colour.
#[derive(Debug)]
pub struct Piece {
    pub text: String,
    pub attributes: Vec<Attributes>,
    pub accent: bool,
}

/// A piece of text to paint, as a value.
pub struct PieceView {
    pub text: Seq<char>,
    pub attributes: Seq<Attributes>,
    pub accent: bool,
}

impl View for Piece {
    type V = PieceView;

    open spec fn view(&self) -> PieceView {
        PieceView { text: self.text@, attributes: self.attributes@, accent: self.accent }
    }
}

/// A row of a frame: the text of a line, or a row left blank for an overlay.
#[derive(Debug)]
pub enum Row {
    Line { line_no: usize, pieces: Vec<Piece> },
    Blank,
}

/// A row of a frame, as a value.
pub enum RowView {
    Line { line_no: int, pieces: Seq<PieceView> },
    Blank,
}

impl View for Row {
    type V = RowView;

    open spec fn view(&self) -> RowView {
        match self {
            Row::Line { line_no, pieces } => RowView::Line {
                line_no: *line_no as int,
                pieces: pieces@.map_values(|p: Piece| p@),
            },
            Row::Blank => RowView::Blank,
        }
    }
}

/// One frame: the rows to paint from the top of the grid, each text row behind
/// an indent, and the messages that draw the overlays of the frame.
#[derive(Debug)]
pub struct Frame {
    pub indent: u16,
    pub rows: Vec<Row>,
    pub overlays: Vec<UeConf>,
}

/// The rows of a frame as values.
pub open spec fn row_views(rows: Seq<Row>) -> Seq<RowView> {
    rows.map_values(|r: Row| r@)
}

/// `n` blank rows.
pub open spec fn blank_rows(n: int) -> Seq<RowView> {
    Seq::new(n as nat, |i: int| RowView::Blank)
}

/// A text without the asterisk that marks it at either end.
pub open spec fn unmarked(text: Seq<char>) -> Seq<char> {
    let start: int = if text.len() > 0 && text[0] == '*' {
        1
    } else {
        0
    };
    let end: int = if text.len() > start && text.last() == '*' {
        text.len() - 1
    } else {
        text.len() as int
    };
    text.subrange(start, end)
}

/// The attributes that a span of the given kind is painted with.
pub open spec fn attributes_of(tag: Annotation) -> Seq<Attributes> {
    match tag {
        Annotation::Heading => seq![Attributes::Bold],
        Annotation::Strong => seq![Attributes::Bold],
        Annotation::Emphasis => seq![Attributes::Italic],
        _ => Seq::empty(),
    }
}

/// The piece that paints a span: a heading bold and in the accent colour,
/// strong text bold and without its marks, emphasis in italics, and
/// everything else as it is.
pub open spec fn piece_of(span: Span) -> PieceView {
    PieceView {
        text: if span.tag == Annotation::Strong {
            unmarked(span.text@)
        } else {
            span.text@
        },
        attributes: attributes_of(span.tag),
        accent: span.tag == Annotation::Heading,
    }
}

/// `text` without the asterisk that marks it at either end.
pub fn unmark(text: &String) -> (r: String)
    ensures
        r@ == unmarked(text@),
{
    let s = text.as_str();
    let n: usize = s.unicode_len();
    let start: usize = if n > 0 && s.get_char(0) == '*' {
        1
    } else {
        0
    };
    let end: usize = if n > start && s.get_char(n - 1) == '*' {
        n - 1
    } else {
        n
    };
    String::from_str(s.substring_char(start, end))
}

/// The piece that paints `span`.
pub fn paint_span(span: &Span) -> (piece: Piece)
    ensures
        piece@ == piece_of(*span),
{
    let mut attributes: Vec<Attributes> = Vec::new();
    match span.tag {
        Annotation::Heading => {
            attributes.push(Attributes::Bold);
        },
        Annotation::Strong => {
            attributes.push(Attributes::Bold);
        },
        Annotation::Emphasis => {
            attributes.push(Attributes::Italic);
        },
        _ => {},
    }
    let text = match span.tag {
        Annotation::Strong => unmark(&span.text),
        _ => span.text.clone(),
    };
    let accent = match span.tag {
        Annotation::Heading => true,
        _ => false,
    };
    Piece { text, attributes, accent }
}

/// What a key asks of a reading surface.
#[derive(Clone, Copy, Debug, PartialEq, Eq, Structural)]
pub enum Command {
    Quit,
    Scroll(i32),
    PreviousChapter,
    NextChapter,
    Ignore,
}

/// What the key with the code `key` asks for on a grid of `grid_rows` rows:
/// `q` quits; `j` and the down arrow scroll forward by a line, `k` and the up
/// arrow backward; `d` scrolls forward by half a page, `u` backward; `h` and
/// the left arrow ask for the previous chapter, `l` and the right arrow for
/// the next.
pub open spec fn command_of(key: int, grid_rows: int) -> Command {
    if key == 113 {
        Command::Quit
    } else if key == 106 || key == 258 {
        Command::Scroll(1i32)
    } else if key == 107 || key == 259 {
        Command::Scroll((-1) as i32)
    } else if key == 100 {
        Command::Scroll((grid_rows / 2) as i32)
    } else if key == 117 {
        Command::Scroll((-(grid_rows / 2)) as i32)
    } else if key == 104 || key == 260 {
        Command::PreviousChapter
    } else if key == 108 || key == 261 {
        Command::NextChapter
    } else {
        Command::Ignore
    }
}

/// What the key with the code `key` asks for.
pub fn command(key: i32, grid_rows: u16) -> (c: Command)
    ensures
        c == command_of(key as int, grid_rows as int),
{
    if key == 113 {
        Command::Quit
    } else if key == 106 || key == 258 {
        Command::Scroll(1)
    } else if key == 107 || key == 259 {
        Command::Scroll(-1)
    } else if key == 100 {
        Command::Scroll((grid_rows / 2) as i32)
    } else if key == 117 {
        Command::Scroll(-((grid_rows / 2) as i32))
    } else if key == 104 || key == 260 {
        Command::PreviousChapter
    } else if key == 108 || key == 261 {
        Command::NextChapter
    } else {
        Command::Ignore
    }
}

/// Paints nothing: the terminal layer of a run without a terminal.
pub fn addstr(str: String) -> (r: Result<(), ()>)
    ensures
        r is Ok,
{
    Ok(())
}

/// Clears nothing: the terminal layer of a run without a terminal.
pub fn clear() -> (r: Result<(), ()>)
    ensures
        r is Ok,
{
    Ok(())
}

/// Moves no cursor: the terminal layer of a run without a terminal.
pub fn move_cursor(str: String) -> (r: Result<(), ()>)
    ensures
        r is Ok,
{
    Ok(())
}

/// Reads no cursor: the terminal layer of a run without a terminal.
pub fn get_cursor_position(str: String) -> (r: Result<(), ()>)
    ensures
        r is Ok,
{
    Ok(())
}

/// Toggles no cursor: the terminal layer of a run without a terminal.
pub fn toggle_cursor() -> (r: Result<(), ()>)
    ensures
        r is Ok,
{
    Ok(())
}

} // verus!
