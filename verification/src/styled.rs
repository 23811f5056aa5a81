//! The styled line model: lines of text spans, each with one annotation, as
//! they are made from the tagged lines that a rich-text renderer hands out.

use vstd::prelude::*;
use vstd::string::*;

verus! {

/// What a rich-text renderer attaches to a piece of text.
#[derive(Debug)]
pub enum RichAnnotation {
    Default,
    Link(String),
    Image,
    Emphasis,
    Strong,
    Strikeout,
    Code,
    Preformat(bool),
}

/// A piece of text with what the renderer has attached to it.
#[derive(Debug)]
pub struct TaggedString {
    pub s: String,
    pub tag: Vec<RichAnnotation>,
}

/// The kinds of span in a styled line.
#[derive(Clone, Copy, Debug, PartialEq, Eq, Structural)]
pub enum Annotation {
    Plain,
    Heading,
    Emphasis,
    Strong,
    Strikeout,
    Code,
    Preformatted,
    ImageRef,
    Link,
}

/// A span of a styled line. The text of an image reference is the reference.
#[derive(Debug)]
pub struct Span {
    pub text: String,
    pub tag: Annotation,
}

/// A line of styled text.
#[derive(Debug)]
pub struct StyledLine {
    pub spans: Vec<Span>,
}

/// The annotation that a rich annotation stands for, or nothing for the
/// default one.
pub open spec fn annotation_of(tag: RichAnnotation) -> Option<Annotation> {
    match tag {
        RichAnnotation::Default => None,
        RichAnnotation::Link(_) => Some(Annotation::Link),
        RichAnnotation::Image => Some(Annotation::ImageRef),
        RichAnnotation::Emphasis => Some(Annotation::Emphasis),
        RichAnnotation::Strong => Some(Annotation::Strong),
        RichAnnotation::Strikeout => Some(Annotation::Strikeout),
        RichAnnotation::Code => Some(Annotation::Code),
        RichAnnotation::Preformat(_) => Some(Annotation::Preformatted),
    }
}

/// The annotation of a piece of text: that of the first of its rich
/// annotations that is not the default one, and plain where there is none.
pub open spec fn first_annotation(tags: Seq<RichAnnotation>) -> Annotation
    decreases tags.len(),
{
    if tags.len() == 0 {
        Annotation::Plain
    } else {
        match annotation_of(tags[0]) {
            Some(a) => a,
            None => first_annotation(tags.drop_first()),
        }
    }
}

/// Whether a tagged line is a heading: its first piece is the mark of one.
pub open spec fn is_heading(line: Seq<TaggedString>) -> bool {
    line.len() > 0 && line[0].s@ == "# "@
}

/// The annotation of a piece of a tagged line: in a heading every piece but an
/// image reference is part of the heading.
pub open spec fn span_annotation(tags: Seq<RichAnnotation>, heading: bool) -> Annotation {
    let a = first_annotation(tags);
    if heading && a != Annotation::ImageRef {
        Annotation::Heading
    } else {
        a
    }
}

/// Whether `styled` is the styled line of `line`: the mark of a heading is
/// left out, and every other piece is a span with its text and annotation.
pub open spec fn styles(styled: Seq<Span>, line: Seq<TaggedString>) -> bool {
    let skip: int = if is_heading(line) {
        1
    } else {
        0
    };
    &&& styled.len() == line.len() - skip
    &&& forall|i: int|
        0 <= i < styled.len() ==> (#[trigger] styled[i]).text@ == line[i + skip].s@ && styled[i].tag
            == span_annotation(line[i + skip].tag@, is_heading(line))
}

/// The annotation of a piece of text with the rich annotations `tags`.
pub fn annotate(tags: &Vec<RichAnnotation>, heading: bool) -> (a: Annotation)
    ensures
        a == span_annotation(tags@, heading),
{
    let mut i: usize = 0;
    assert(tags@.skip(0) =~= tags@);
    while i < tags.len()
        invariant
            i <= tags@.len(),
            first_annotation(tags@) == first_annotation(tags@.skip(i as int)),
        decreases tags@.len() - i,
    {
        let here = match &tags[i] {
            RichAnnotation::Default => None,
            RichAnnotation::Link(_) => Some(Annotation::Link),
            RichAnnotation::Image => Some(Annotation::ImageRef),
            RichAnnotation::Emphasis => Some(Annotation::Emphasis),
            RichAnnotation::Strong => Some(Annotation::Strong),
            RichAnnotation::Strikeout => Some(Annotation::Strikeout),
            RichAnnotation::Code => Some(Annotation::Code),
            RichAnnotation::Preformat(_) => Some(Annotation::Preformatted),
        };
        proof {
            assert(tags@.skip(i as int).drop_first() =~= tags@.skip(i + 1));
        }
        match here {
            Some(a) => {
                return if heading && a != Annotation::ImageRef {
                    Annotation::Heading
                } else {
                    a
                };
            },
            None => {},
        }
        i = i + 1;
    }
    if heading {
        Annotation::Heading
    } else {
        Annotation::Plain
    }
}

/// The styled line of a tagged line.
pub fn style_line(line: &Vec<TaggedString>) -> (styled: StyledLine)
    ensures
        styles(styled.spans@, line@),
{
    let heading = line.len() > 0 && line[0].s.as_str().unicode_len() == 2
        && line[0].s.as_str().get_char(0) == '#' && line[0].s.as_str().get_char(1) == ' ';
    proof {
        reveal_strlit("# ");
        if line@.len() > 0 {
            if heading {
                assert(line@[0].s@ =~= "# "@);
            }
        }
    }
    let skip: usize = if heading {
        1
    } else {
        0
    };
    let mut spans: Vec<Span> = Vec::new();
    let mut i: usize = skip;
    while i < line.len()
        invariant
            heading == is_heading(line@),
            skip == if heading {
                1int
            } else {
                0int
            },
            skip <= i <= line@.len(),
            spans@.len() == i - skip,
            forall|k: int|
                0 <= k < spans@.len() ==> (#[trigger] spans@[k]).text@ == line@[k + skip].s@
                    && spans@[k].tag == span_annotation(line@[k + skip].tag@, heading),
        decreases line@.len() - i,
    {
        let span = Span { text: line[i].s.clone(), tag: annotate(&line[i].tag, heading) };
        spans.push(span);
        i = i + 1;
    }
    StyledLine { spans }
}

/// Whether `styled` holds the styled lines of `lines`, one for one.
pub open spec fn styles_all(styled: Seq<StyledLine>, lines: Seq<Vec<TaggedString>>) -> bool {
    &&& styled.len() == lines.len()
    &&& forall|i: int| 0 <= i < styled.len() ==> styles((#[trigger] styled[i]).spans@, lines[i]@)
}

/// The styled lines of the tagged lines of a chapter.
pub fn style_lines(lines: &Vec<Vec<TaggedString>>) -> (styled: Vec<StyledLine>)
    ensures
        styles_all(styled@, lines@),
{
    let mut styled: Vec<StyledLine> = Vec::new();
    let mut i: usize = 0;
    while i < lines.len()
        invariant
            i <= lines@.len(),
            styled@.len() == i,
            forall|k: int| 0 <= k < i ==> styles((#[trigger] styled@[k]).spans@, lines@[k]@),
        decreases lines@.len() - i,
    {
        styled.push(style_line(&lines[i]));
        i = i + 1;
    }
    styled
}

} // verus!
