use lightnovel_cli::renderer::{
    addstr, clear, command, get_cursor_position, move_cursor, paint_span, toggle_cursor, unmark,
    Attributes, Command,
};
use lightnovel_cli::styled::{
    annotate, style_line, style_lines, Annotation, RichAnnotation, Span, TaggedString,
};

fn tagged(s: &str, tag: Vec<RichAnnotation>) -> TaggedString {
    TaggedString { s: s.to_string(), tag }
}

fn tags_of(spans: &[Span]) -> Vec<Annotation> {
    spans.iter().map(|s| s.tag).collect()
}

fn texts_of(spans: &[Span]) -> Vec<String> {
    spans.iter().map(|s| s.text.clone()).collect()
}

#[test]
fn first_annotation_that_is_not_default_decides() {
    assert_eq!(annotate(&vec![], false), Annotation::Plain);
    assert_eq!(annotate(&vec![RichAnnotation::Default], false), Annotation::Plain);
    assert_eq!(
        annotate(&vec![RichAnnotation::Default, RichAnnotation::Strong], false),
        Annotation::Strong
    );
    assert_eq!(
        annotate(&vec![RichAnnotation::Emphasis, RichAnnotation::Strong], false),
        Annotation::Emphasis
    );
    assert_eq!(
        annotate(&vec![RichAnnotation::Link("x".to_string()), RichAnnotation::Image], false),
        Annotation::Link
    );
}

#[test]
fn each_rich_annotation_has_its_kind() {
    assert_eq!(annotate(&vec![RichAnnotation::Image], false), Annotation::ImageRef);
    assert_eq!(annotate(&vec![RichAnnotation::Emphasis], false), Annotation::Emphasis);
    assert_eq!(annotate(&vec![RichAnnotation::Strong], false), Annotation::Strong);
    assert_eq!(annotate(&vec![RichAnnotation::Strikeout], false), Annotation::Strikeout);
    assert_eq!(annotate(&vec![RichAnnotation::Code], false), Annotation::Code);
    assert_eq!(annotate(&vec![RichAnnotation::Preformat(true)], false), Annotation::Preformatted);
    assert_eq!(annotate(&vec![RichAnnotation::Preformat(false)], false), Annotation::Preformatted);
    assert_eq!(annotate(&vec![RichAnnotation::Link(String::new())], false), Annotation::Link);
}

#[test]
fn heading_takes_everything_but_images() {
    assert_eq!(annotate(&vec![], true), Annotation::Heading);
    assert_eq!(annotate(&vec![RichAnnotation::Emphasis], true), Annotation::Heading);
    assert_eq!(annotate(&vec![RichAnnotation::Image], true), Annotation::ImageRef);
    assert_eq!(
        annotate(&vec![RichAnnotation::Default, RichAnnotation::Image], true),
        Annotation::ImageRef
    );
}

#[test]
fn styled_line_keeps_texts_and_kinds() {
    let line = vec![
        tagged("plain ", vec![RichAnnotation::Default]),
        tagged("*bold*", vec![RichAnnotation::Strong]),
        tagged("images/a.png", vec![RichAnnotation::Image]),
        tagged("", vec![]),
    ];
    let styled = style_line(&line);
    assert_eq!(texts_of(&styled.spans), vec!["plain ", "*bold*", "images/a.png", ""]);
    assert_eq!(
        tags_of(&styled.spans),
        vec![Annotation::Plain, Annotation::Strong, Annotation::ImageRef, Annotation::Plain]
    );
}

#[test]
fn heading_mark_is_left_out() {
    let line = vec![
        tagged("# ", vec![]),
        tagged("Chapter ", vec![RichAnnotation::Default]),
        tagged("One", vec![RichAnnotation::Emphasis]),
        tagged("images/a.png", vec![RichAnnotation::Image]),
    ];
    let styled = style_line(&line);
    assert_eq!(texts_of(&styled.spans), vec!["Chapter ", "One", "images/a.png"]);
    assert_eq!(
        tags_of(&styled.spans),
        vec![Annotation::Heading, Annotation::Heading, Annotation::ImageRef]
    );
}

#[test]
fn heading_mark_alone_is_an_empty_heading() {
    let styled = style_line(&vec![tagged("# ", vec![])]);
    assert!(styled.spans.is_empty());
}

#[test]
fn only_the_mark_of_the_first_level_makes_a_heading() {
    for first in ["## ", "#", " # ", "#  ", ""] {
        let styled = style_line(&vec![tagged(first, vec![]), tagged("x", vec![])]);
        assert_eq!(texts_of(&styled.spans), vec![first, "x"]);
        assert_eq!(tags_of(&styled.spans), vec![Annotation::Plain, Annotation::Plain]);
    }
}

#[test]
fn empty_line_has_no_spans() {
    assert!(style_line(&vec![]).spans.is_empty());
}

#[test]
fn lines_are_styled_one_for_one() {
    let lines = vec![
        vec![tagged("# ", vec![]), tagged("Title", vec![])],
        vec![],
        vec![tagged("text", vec![RichAnnotation::Code])],
    ];
    let styled = style_lines(&lines);
    assert_eq!(styled.len(), 3);
    assert_eq!(tags_of(&styled[0].spans), vec![Annotation::Heading]);
    assert!(styled[1].spans.is_empty());
    assert_eq!(tags_of(&styled[2].spans), vec![Annotation::Code]);
    assert!(style_lines(&vec![]).is_empty());
}

#[test]
fn marks_are_taken_off_strong_text() {
    assert_eq!(unmark(&"*bold*".to_string()), "bold");
    assert_eq!(unmark(&"bold".to_string()), "bold");
    assert_eq!(unmark(&"*bold".to_string()), "bold");
    assert_eq!(unmark(&"bold*".to_string()), "bold");
    assert_eq!(unmark(&"**bold**".to_string()), "*bold*");
    assert_eq!(unmark(&"*".to_string()), "");
    assert_eq!(unmark(&"**".to_string()), "");
    assert_eq!(unmark(&"".to_string()), "");
    assert_eq!(unmark(&"*é*".to_string()), "é");
}

#[test]
fn spans_are_painted_by_their_kind() {
    let piece = paint_span(&Span { text: "Title".to_string(), tag: Annotation::Heading });
    assert_eq!(piece.text, "Title");
    assert_eq!(piece.attributes, vec![Attributes::Bold]);
    assert!(piece.accent);
    let piece = paint_span(&Span { text: "*bold*".to_string(), tag: Annotation::Strong });
    assert_eq!(piece.text, "bold");
    assert_eq!(piece.attributes, vec![Attributes::Bold]);
    assert!(!piece.accent);
    let piece = paint_span(&Span { text: "em".to_string(), tag: Annotation::Emphasis });
    assert_eq!(piece.text, "em");
    assert_eq!(piece.attributes, vec![Attributes::Italic]);
    assert!(!piece.accent);
    for tag in [
        Annotation::Plain,
        Annotation::Strikeout,
        Annotation::Code,
        Annotation::Preformatted,
        Annotation::ImageRef,
        Annotation::Link,
    ] {
        let piece = paint_span(&Span { text: "*x*".to_string(), tag });
        assert_eq!(piece.text, "*x*");
        assert!(piece.attributes.is_empty());
        assert!(!piece.accent);
    }
}

#[test]
fn keys_have_their_commands() {
    assert_eq!(command(113, 30), Command::Quit);
    assert_eq!(command(106, 30), Command::Scroll(1));
    assert_eq!(command(258, 30), Command::Scroll(1));
    assert_eq!(command(107, 30), Command::Scroll(-1));
    assert_eq!(command(259, 30), Command::Scroll(-1));
    assert_eq!(command(100, 30), Command::Scroll(15));
    assert_eq!(command(100, 31), Command::Scroll(15));
    assert_eq!(command(117, 30), Command::Scroll(-15));
    assert_eq!(command(117, 65535), Command::Scroll(-32767));
    assert_eq!(command(100, 0), Command::Scroll(0));
    assert_eq!(command(104, 30), Command::PreviousChapter);
    assert_eq!(command(260, 30), Command::PreviousChapter);
    assert_eq!(command(108, 30), Command::NextChapter);
    assert_eq!(command(261, 30), Command::NextChapter);
    assert_eq!(command(0, 30), Command::Ignore);
    assert_eq!(command(-1, 30), Command::Ignore);
    assert_eq!(command(10, 30), Command::Ignore);
    assert_eq!(command(i32::MAX, 30), Command::Ignore);
}

#[test]
fn terminal_layer_without_a_terminal_does_nothing() {
    assert_eq!(addstr("text".to_string()), Ok(()));
    assert_eq!(clear(), Ok(()));
    assert_eq!(move_cursor("1;1".to_string()), Ok(()));
    assert_eq!(get_cursor_position(String::new()), Ok(()));
    assert_eq!(toggle_cursor(), Ok(()));
}
