use lightnovel_cli::epub::{to_grid_dimension, Epub, Event, Step};
use lightnovel_cli::error::Error;
use lightnovel_cli::renderer::{Attributes, Frame, Row};
use lightnovel_cli::styled::{RichAnnotation, TaggedString};
use lightnovel_cli::ueberzug::Actions;

fn text(s: &str) -> Vec<TaggedString> {
    vec![TaggedString { s: s.to_string(), tag: vec![RichAnnotation::Default] }]
}

fn image(reference: &str) -> Vec<TaggedString> {
    vec![TaggedString { s: reference.to_string(), tag: vec![RichAnnotation::Image] }]
}

/// A chapter of `n` lines of text with an image in place of each line named.
fn chapter(n: usize, images: &[(usize, &str)]) -> Vec<Vec<TaggedString>> {
    (0..n)
        .map(|i| match images.iter().find(|(line, _)| *line == i) {
            Some((_, reference)) => image(reference),
            None => text(&format!("line {}", i)),
        })
        .collect()
}

fn surface(n: usize, images: &[(usize, &str)]) -> Epub {
    Epub::new(80, 30, "book.epub".to_string(), "/tmp/s".to_string(), &chapter(n, images))
}

/// The kinds of the rows of a frame: the number of the line, or nothing for a
/// blank row.
fn kinds(frame: &Frame) -> Vec<Option<usize>> {
    frame
        .rows
        .iter()
        .map(|row| match row {
            Row::Line { line_no, .. } => Some(*line_no),
            Row::Blank => None,
        })
        .collect()
}

fn lines(from: usize, to: usize) -> Vec<Option<usize>> {
    (from..to).map(Some).collect()
}

fn piece_texts(row: &Row) -> Vec<String> {
    match row {
        Row::Line { pieces, .. } => pieces.iter().map(|p| p.text.clone()).collect(),
        Row::Blank => Vec::new(),
    }
}

#[test]
fn grid_dimensions_are_kept_in_range() {
    assert_eq!(to_grid_dimension(30), 30);
    assert_eq!(to_grid_dimension(0), 0);
    assert_eq!(to_grid_dimension(-5), 0);
    assert_eq!(to_grid_dimension(65535), 65535);
    assert_eq!(to_grid_dimension(65536), 65535);
    assert_eq!(to_grid_dimension(i32::MAX), 65535);
    assert_eq!(to_grid_dimension(i32::MIN), 0);
}

#[test]
fn new_surface_shows_the_first_page() {
    let epub = surface(100, &[]);
    assert_eq!(epub.path, "book.epub");
    assert_eq!(epub.viewport.top_line(), 0);
    assert_eq!(epub.viewport.bottom_line(), 30);
    assert_eq!(epub.viewport.grid_rows(), 30);
    assert_eq!(epub.viewport.grid_cols(), 80);
    assert_eq!(epub.chapter.len(), 100);
    assert!(epub.image_list.is_empty());
    assert!(epub.cache.entries.is_empty());
    assert_eq!(epub.cache.scratch_dir, "/tmp/s");
}

#[test]
fn text_width_leaves_a_margin_on_either_side() {
    assert_eq!(surface(1, &[]).text_width(), 60);
    let narrow = Epub::new(7, 30, String::new(), String::new(), &chapter(1, &[]));
    assert_eq!(narrow.text_width(), 7);
    let wide = Epub::new(100, 30, String::new(), String::new(), &chapter(1, &[]));
    assert_eq!(wide.text_width(), 76);
}

#[test]
fn frame_of_plain_text_shows_the_visible_lines() {
    let mut epub = surface(100, &[]);
    let frame = epub.display_chapter(800);
    assert_eq!(frame.indent, 10);
    assert_eq!(kinds(&frame), lines(0, 30));
    assert!(frame.overlays.is_empty());
    assert_eq!(piece_texts(&frame.rows[3]), vec!["line 3"]);
    let frame = epub.epub_draw(10, 800);
    assert_eq!(kinds(&frame), lines(10, 40));
    let frame = epub.epub_draw(65, 800);
    assert_eq!(kinds(&frame), lines(70, 100));
    assert_eq!((epub.viewport.top_line(), epub.viewport.bottom_line()), (70, 100));
}

#[test]
fn frame_of_a_short_chapter_ends_with_the_chapter() {
    let mut epub = surface(4, &[]);
    let frame = epub.display_chapter(800);
    assert_eq!(kinds(&frame), lines(0, 4));
    let frame = epub.epub_draw(1, 800);
    assert_eq!(kinds(&frame), lines(0, 4));
    let mut empty = surface(0, &[]);
    assert!(empty.display_chapter(800).rows.is_empty());
}

#[test]
fn image_without_its_file_shows_its_reference() {
    let mut epub = surface(100, &[(5, "images/a.png")]);
    let frame = epub.display_chapter(800);
    assert_eq!(kinds(&frame), lines(0, 30));
    assert_eq!(piece_texts(&frame.rows[5]), vec!["images/a.png"]);
    assert!(frame.overlays.is_empty());
    assert!(epub.image_list.is_empty());
    assert_eq!(epub.pending_images(), vec!["images/a.png"]);
}

#[test]
fn overlay_follows_the_scroll_until_it_has_left_the_grid() {
    let mut epub = surface(100, &[(50, "images/a.png")]);
    epub.cache.store(&"images/a.png".to_string(), Some(140));

    let frame = epub.epub_draw(48, 800);
    assert_eq!((epub.viewport.top_line(), epub.viewport.bottom_line()), (48, 78));
    assert_eq!(epub.image_list.len(), 1);
    let overlay = &epub.image_list[0];
    assert_eq!(overlay.rows, 6);
    assert_eq!(overlay.line_no, 50);
    assert_eq!(overlay.col_no, 0);
    assert_eq!(overlay.image_path, "/tmp/s/a.png");
    assert_eq!(overlay.vertical_offset(), 2);
    assert!(overlay.is_eligible(30));
    assert_eq!(frame.overlays.len(), 1);
    assert_eq!(frame.overlays[0].action, Actions::Add);
    assert_eq!(frame.overlays[0].identifier, "0");
    assert_eq!(frame.overlays[0].path, "/tmp/s/a.png");
    assert_eq!((frame.overlays[0].x, frame.overlays[0].y), (0, 2));

    let frame = epub.epub_draw(5, 800);
    assert_eq!(epub.viewport.top_line(), 53);
    assert_eq!(epub.image_list[0].vertical_offset(), -3);
    assert!(epub.image_list[0].is_eligible(30));
    assert_eq!(frame.overlays.len(), 1);
    assert_eq!(frame.overlays[0].y, -3);

    let frame = epub.epub_draw(4, 800);
    assert_eq!(epub.viewport.top_line(), 57);
    assert_eq!(epub.image_list[0].vertical_offset(), -7);
    assert!(!epub.image_list[0].is_eligible(30));
    assert!(frame.overlays.is_empty());
    assert_eq!(epub.image_list.len(), 1);
}

#[test]
fn overlay_takes_up_rows_after_its_line() {
    let mut epub = surface(100, &[(50, "images/a.png")]);
    epub.cache.store(&"images/a.png".to_string(), Some(140));
    let frame = epub.epub_draw(48, 800);
    let mut expected = lines(48, 51);
    expected.extend(vec![None; 6]);
    expected.extend(lines(51, 72));
    assert_eq!(kinds(&frame), expected);
    assert_eq!(frame.rows.len(), 30);
    assert!(piece_texts(&frame.rows[2]).is_empty());
    assert_eq!(piece_texts(&frame.rows[9]), vec!["line 51"]);
}

#[test]
fn text_stays_with_an_image_that_the_top_cuts() {
    let mut epub = surface(100, &[(50, "images/a.png")]);
    epub.cache.store(&"images/a.png".to_string(), Some(140));
    epub.epub_draw(48, 800);
    let frame = epub.epub_draw(5, 800);
    assert_eq!(epub.first_line(), 50);
    let mut expected = vec![Some(50)];
    expected.extend(vec![None; 6]);
    expected.extend(lines(51, 74));
    assert_eq!(kinds(&frame), expected);
    let frame = epub.epub_draw(4, 800);
    assert_eq!(epub.first_line(), 57);
    assert_eq!(kinds(&frame), lines(57, 87));
}

#[test]
fn rows_of_an_overlay_are_cut_where_the_grid_ends() {
    let mut epub = surface(100, &[(28, "images/a.png")]);
    epub.cache.store(&"images/a.png".to_string(), Some(140));
    let frame = epub.display_chapter(800);
    let mut expected = lines(0, 29);
    expected.push(None);
    assert_eq!(kinds(&frame), expected);
    assert_eq!(frame.overlays.len(), 1);
    assert_eq!(frame.overlays[0].y, 28);

    let mut last = surface(100, &[(29, "images/a.png")]);
    last.cache.store(&"images/a.png".to_string(), Some(140));
    let frame = last.display_chapter(800);
    assert_eq!(kinds(&frame), lines(0, 30));
    assert_eq!(frame.overlays.len(), 1);
}

#[test]
fn overlay_is_created_once_and_keeps_its_name() {
    let mut epub = surface(100, &[(3, "images/a.png"), (9, "images/b.png")]);
    epub.cache.store(&"images/a.png".to_string(), Some(100));
    epub.cache.store(&"images/b.png".to_string(), Some(27));
    let frame = epub.display_chapter(800);
    assert_eq!(epub.image_list.len(), 2);
    assert_eq!(frame.overlays.len(), 2);
    assert_eq!(frame.overlays[0].identifier, "0");
    assert_eq!(frame.overlays[1].identifier, "1");
    assert_eq!(epub.image_list[0].rows, 4);
    assert_eq!(epub.image_list[1].rows, 2);
    assert_eq!((frame.overlays[0].y, frame.overlays[1].y), (3, 13));
    let mut expected = lines(0, 4);
    expected.extend(vec![None; 4]);
    expected.extend(lines(4, 10));
    expected.extend(vec![None; 2]);
    expected.extend(lines(10, 24));
    assert_eq!(kinds(&frame), expected);
    for _ in 0..3 {
        let frame = epub.epub_draw(0, 800);
        assert_eq!(epub.image_list.len(), 2);
        assert_eq!(frame.overlays.len(), 2);
    }
    let frame = epub.epub_draw(1, 800);
    assert_eq!(epub.image_list.len(), 2);
    assert_eq!(frame.overlays[0].identifier, "0");
    assert_eq!(frame.overlays[1].identifier, "1");
    assert_eq!((frame.overlays[0].y, frame.overlays[1].y), (2, 12));
    assert!(epub.find_record(3, 0));
    assert!(epub.find_record(9, 0));
    assert!(!epub.find_record(3, 1));
    assert!(!epub.find_record(4, 0));
}

#[test]
fn same_image_on_two_lines_has_two_overlays() {
    let mut epub = surface(100, &[(3, "images/a.png"), (9, "images/a.png")]);
    epub.cache.store(&"images/a.png".to_string(), Some(100));
    let frame = epub.display_chapter(800);
    assert_eq!(frame.overlays.len(), 2);
    assert_eq!(frame.overlays[0].identifier, "0");
    assert_eq!(frame.overlays[1].identifier, "1");
    assert_eq!(frame.overlays[0].path, frame.overlays[1].path);
}

#[test]
fn image_of_unknown_height_has_no_overlay() {
    let mut epub = surface(100, &[(5, "images/a.xyz")]);
    epub.cache.store(&"images/a.xyz".to_string(), None);
    let frame = epub.display_chapter(800);
    assert!(frame.overlays.is_empty());
    assert!(epub.image_list.is_empty());
    assert_eq!(piece_texts(&frame.rows[5]), vec!["images/a.xyz"]);
    assert!(epub.pending_images().is_empty());
}

#[test]
fn terminal_without_a_height_in_pixels_has_no_overlays() {
    let mut epub = surface(100, &[(5, "images/a.png")]);
    epub.cache.store(&"images/a.png".to_string(), Some(100));
    let frame = epub.display_chapter(0);
    assert!(frame.overlays.is_empty());
    assert!(epub.image_list.is_empty());
    assert_eq!(kinds(&frame), lines(0, 30));
}

#[test]
fn create_image_from_path_computes_the_rows() {
    let epub = Epub::new(80, 40, String::new(), String::new(), &chapter(10, &[]));
    let overlay = epub.create_image_from_path("/tmp/a.png".to_string(), 2, 1, 50, 100, 800).unwrap();
    assert_eq!(overlay.rows, 6);
    assert_eq!(overlay.line_no, 50);
    assert_eq!(overlay.col_no, 1);
    assert_eq!(overlay.image_path, "/tmp/a.png");
    assert_eq!(overlay.ue_conf.identifier, "0");
    assert_eq!(overlay.ue_conf.path, "/tmp/a.png");
    assert_eq!(overlay.ue_conf.y, 2);
    assert_eq!(overlay.ue_conf.action, Actions::Add);
    assert!(epub.create_image_from_path("/tmp/a.png".to_string(), 2, 1, 50, 100, 0).is_none());
    assert!(epub.create_image_from_path(String::new(), 2, 1, 50, 100, 800).is_none());
}

#[test]
fn pending_images_are_those_of_the_visible_lines() {
    let mut epub = surface(100, &[(3, "images/a.png"), (9, "images/b.png"), (40, "images/c.png")]);
    assert_eq!(epub.pending_images(), vec!["images/a.png", "images/b.png"]);
    epub.cache.store(&"images/a.png".to_string(), Some(10));
    assert_eq!(epub.pending_images(), vec!["images/b.png"]);
    epub.scroll(15);
    assert_eq!(epub.pending_images(), vec!["images/c.png"]);
    epub.scroll(40);
    assert!(epub.pending_images().is_empty());
}

#[test]
fn extraction_through_the_surface_fills_its_cache() {
    let mut epub = surface(100, &[(3, "images/a.png")]);
    assert_eq!(
        epub.image_extracted(&"images/a.png".to_string(), None),
        Err(Error::ResourceMissing)
    );
    assert!(epub.cache.entries.is_empty());
    let bytes = b"no image".to_vec();
    assert_eq!(
        epub.image_extracted(&"images/a.png".to_string(), Some(&bytes)),
        Ok("/tmp/s/a.png".to_string())
    );
    assert_eq!(epub.cache.entries.len(), 1);
    assert!(epub.pending_images().is_empty());
}

#[test]
fn scroll_moves_text_and_overlays_together() {
    let mut epub = surface(100, &[(3, "images/a.png")]);
    epub.cache.store(&"images/a.png".to_string(), Some(100));
    epub.display_chapter(800);
    epub.scroll(2);
    assert_eq!(epub.viewport.top_line(), 2);
    assert_eq!(epub.image_list[0].vertical_offset(), 1);
    epub.scroll(-7);
    assert_eq!(epub.viewport.top_line(), 0);
    assert_eq!(epub.image_list[0].vertical_offset(), 3);
    epub.scroll(-1);
    assert_eq!(epub.image_list[0].vertical_offset(), 3);
    epub.scroll(1000);
    assert_eq!(epub.viewport.top_line(), 70);
    assert_eq!(epub.image_list[0].vertical_offset(), -67);
    epub.scroll(1);
    assert_eq!(epub.image_list[0].vertical_offset(), -67);
}

#[test]
fn scroll_image_then_scroll_text_is_a_scroll() {
    let mut epub = surface(100, &[(3, "images/a.png")]);
    epub.cache.store(&"images/a.png".to_string(), Some(100));
    epub.display_chapter(800);
    epub.scroll_image(5);
    assert_eq!(epub.viewport.top_line(), 0);
    assert_eq!(epub.image_list[0].vertical_offset(), -2);
    epub.scroll_text(5);
    assert_eq!(epub.viewport.top_line(), 5);
    assert_eq!(epub.image_list[0].vertical_offset(), -2);
}

#[test]
fn leaving_the_chapter_removes_its_overlays() {
    let mut epub = surface(100, &[(3, "images/a.png"), (9, "images/b.png")]);
    epub.cache.store(&"images/a.png".to_string(), Some(100));
    epub.cache.store(&"images/b.png".to_string(), Some(100));
    epub.display_chapter(800);
    match epub.display_epub_chapter_screen(&Event::Key(113), 800) {
        Step::Quit(removed) => {
            assert_eq!(removed.len(), 2);
            assert_eq!(removed[0].action, Actions::Remove);
            assert_eq!(removed[0].identifier, "0");
            assert_eq!(removed[1].identifier, "1");
            assert_eq!(removed[0].to_json(), "{\"action\":\"remove\",\"identifier\":\"0\"}\n");
        }
        _ => panic!("`q` leaves the chapter"),
    }
    assert!(epub.image_list.is_empty());
    assert_eq!(epub.cache.entries.len(), 2);
}

#[test]
fn keys_scroll_the_chapter() {
    let mut epub = surface(100, &[]);
    match epub.display_epub_chapter_screen(&Event::Key(106), 800) {
        Step::Show(frame) => assert_eq!(kinds(&frame), lines(1, 31)),
        _ => panic!("`j` scrolls"),
    }
    match epub.display_epub_chapter_screen(&Event::Key(100), 800) {
        Step::Show(frame) => assert_eq!(kinds(&frame), lines(16, 46)),
        _ => panic!("`d` scrolls"),
    }
    match epub.display_epub_chapter_screen(&Event::Key(259), 800) {
        Step::Show(frame) => assert_eq!(kinds(&frame), lines(15, 45)),
        _ => panic!("the up arrow scrolls"),
    }
    match epub.display_epub_chapter_screen(&Event::Key(117), 800) {
        Step::Show(frame) => assert_eq!(kinds(&frame), lines(0, 30)),
        _ => panic!("`u` scrolls"),
    }
    for key in [0, 10, 104, 108, 260, 261, -1] {
        assert!(matches!(epub.display_epub_chapter_screen(&Event::Key(key), 800), Step::Wait));
        assert_eq!(epub.viewport.top_line(), 0);
    }
}

#[test]
fn resize_takes_new_lines_and_keeps_the_overlays() {
    let mut epub = surface(100, &[(35, "images/a.png")]);
    epub.cache.store(&"images/a.png".to_string(), Some(100));
    epub.epub_draw(30, 800);
    assert_eq!((epub.viewport.top_line(), epub.viewport.bottom_line()), (30, 60));
    assert_eq!(epub.image_list.len(), 1);
    assert_eq!(epub.image_list[0].vertical_offset(), 5);
    assert_eq!(epub.resize(100, 40, Some(&chapter(120, &[(40, "images/a.png")]))), Ok(()));
    assert_eq!((epub.viewport.top_line(), epub.viewport.bottom_line()), (30, 70));
    assert_eq!(epub.viewport.grid_rows(), 40);
    assert_eq!(epub.viewport.grid_cols(), 100);
    assert_eq!(epub.chapter.len(), 120);
    assert_eq!(epub.image_list.len(), 1);
    assert_eq!(epub.image_list[0].vertical_offset(), 5);
    assert_eq!(epub.image_list[0].rows, 4);
    let frame = epub.display_chapter(800);
    assert_eq!(frame.overlays.len(), 2);
    assert_eq!(frame.overlays[0].identifier, "0");
    assert_eq!(frame.overlays[0].y, 5);
    assert_eq!(frame.overlays[1].identifier, "1");
    assert_eq!(frame.overlays[1].y, 14);
    assert_eq!(epub.image_list[1].rows, 6);
    assert_eq!(epub.image_list[1].line_no, 40);
}

#[test]
fn resize_to_a_shorter_layout_cuts_the_range_and_moves_the_overlays() {
    let mut epub = surface(100, &[(35, "images/a.png")]);
    epub.cache.store(&"images/a.png".to_string(), Some(100));
    epub.epub_draw(30, 800);
    assert_eq!(epub.resize(80, 40, Some(&chapter(65, &[]))), Ok(()));
    assert_eq!((epub.viewport.top_line(), epub.viewport.bottom_line()), (30, 65));
    assert_eq!(epub.image_list[0].vertical_offset(), 5);
    assert_eq!(epub.resize(80, 40, Some(&chapter(20, &[]))), Ok(()));
    assert_eq!((epub.viewport.top_line(), epub.viewport.bottom_line()), (20, 20));
    assert_eq!(epub.image_list[0].vertical_offset(), 15);
}

#[test]
fn resize_without_new_lines_changes_nothing() {
    let mut epub = surface(100, &[(35, "images/a.png")]);
    epub.cache.store(&"images/a.png".to_string(), Some(100));
    epub.epub_draw(30, 800);
    assert_eq!(epub.resize(100, 40, None), Err(Error::LayoutRegenerationFailed));
    assert_eq!((epub.viewport.top_line(), epub.viewport.bottom_line()), (30, 60));
    assert_eq!(epub.viewport.grid_rows(), 30);
    assert_eq!(epub.chapter.len(), 100);
    assert_eq!(epub.image_list.len(), 1);
}

#[test]
fn resize_event_keeps_the_row_delta() {
    let mut epub = surface(100, &[]);
    epub.epub_draw(30, 800);
    assert_eq!((epub.viewport.top_line(), epub.viewport.bottom_line()), (30, 60));
    let event = Event::Resized { maxx: 100, maxy: 40, lines: Some(chapter(100, &[])) };
    match epub.display_epub_chapter_screen(&event, 800) {
        Step::Show(frame) => assert_eq!(kinds(&frame), lines(30, 70)),
        _ => panic!("a resize gives the frame of the redraw"),
    }
    assert_eq!(epub.viewport.grid_rows(), 40);
    assert_eq!(epub.viewport.grid_cols(), 100);
    assert_eq!((epub.viewport.top_line(), epub.viewport.bottom_line()), (30, 70));
    assert!(matches!(epub.display_epub_chapter_screen(&Event::Key(113), 800), Step::Quit(_)));
    assert_eq!((epub.viewport.top_line(), epub.viewport.bottom_line()), (30, 70));
}

#[test]
fn resize_event_takes_the_new_layout() {
    let mut epub = surface(100, &[(4, "images/a.png")]);
    epub.cache.store(&"images/a.png".to_string(), Some(100));
    epub.display_chapter(800);
    let event = Event::Resized { maxx: 60, maxy: 20, lines: Some(chapter(150, &[(6, "images/a.png")])) };
    match epub.display_epub_chapter_screen(&event, 800) {
        Step::Show(frame) => {
            assert_eq!(frame.indent, 7);
            assert_eq!(frame.rows.len(), 20);
            assert_eq!(frame.overlays.len(), 2);
            assert_eq!(frame.overlays[1].y, 10);
        }
        _ => panic!("a resize gives the frame of the redraw"),
    }
    assert_eq!(epub.chapter.len(), 150);
    assert_eq!(epub.viewport.grid_rows(), 20);
    assert_eq!((epub.viewport.top_line(), epub.viewport.bottom_line()), (0, 20));
    assert_eq!(epub.image_list[1].rows, 3);
}

#[test]
fn resize_event_without_a_layout_fails_and_changes_nothing() {
    let mut epub = surface(100, &[(35, "images/a.png")]);
    epub.cache.store(&"images/a.png".to_string(), Some(100));
    epub.epub_draw(30, 800);
    let event = Event::Resized { maxx: 100, maxy: 40, lines: None };
    match epub.display_epub_chapter_screen(&event, 800) {
        Step::Failed(e) => assert_eq!(e, Error::LayoutRegenerationFailed),
        _ => panic!("the layout could not be made"),
    }
    assert_eq!((epub.viewport.top_line(), epub.viewport.bottom_line()), (30, 60));
    assert_eq!(epub.viewport.grid_rows(), 30);
    assert_eq!(epub.viewport.grid_cols(), 80);
    assert_eq!(epub.chapter.len(), 100);
    assert_eq!(epub.image_list.len(), 1);
    assert_eq!(epub.image_list[0].vertical_offset(), 5);
}

#[test]
fn second_image_stands_at_the_row_of_its_line() {
    let mut epub = surface(100, &[(50, "images/a.png"), (52, "images/b.png")]);
    epub.cache.store(&"images/a.png".to_string(), Some(140));
    epub.cache.store(&"images/b.png".to_string(), Some(140));
    let frame = epub.epub_draw(48, 800);
    assert_eq!(epub.image_list.len(), 2);
    assert_eq!((epub.image_list[0].rows, epub.image_list[1].rows), (6, 6));
    assert_eq!((frame.overlays[0].y, frame.overlays[1].y), (2, 10));
    let mut expected = lines(48, 51);
    expected.extend(vec![None; 6]);
    expected.extend(lines(51, 53));
    expected.extend(vec![None; 6]);
    expected.extend(lines(53, 66));
    assert_eq!(kinds(&frame), expected);
    assert_eq!(frame.rows.len(), 30);
}

#[test]
fn image_whose_line_has_no_row_in_the_frame_waits_for_its_overlay() {
    let mut epub = surface(100, &[(3, "images/a.png"), (28, "images/b.png")]);
    epub.cache.store(&"images/a.png".to_string(), Some(140));
    epub.cache.store(&"images/b.png".to_string(), Some(140));
    let frame = epub.display_chapter(800);
    assert_eq!(epub.image_list.len(), 1);
    assert_eq!(frame.overlays.len(), 1);
    let mut expected = lines(0, 4);
    expected.extend(vec![None; 6]);
    expected.extend(lines(4, 24));
    assert_eq!(kinds(&frame), expected);
    let frame = epub.epub_draw(10, 800);
    assert_eq!(epub.image_list.len(), 2);
    assert_eq!(epub.image_list[0].vertical_offset(), -7);
    assert_eq!(epub.image_list[1].vertical_offset(), 18);
    assert_eq!(frame.overlays.len(), 1);
    assert_eq!(frame.overlays[0].identifier, "1");
}

#[test]
fn overlays_move_by_the_lines_the_top_moves() {
    let mut epub = surface(100, &[(50, "images/a.png")]);
    epub.cache.store(&"images/a.png".to_string(), Some(140));
    epub.epub_draw(48, 800);
    assert_eq!(epub.image_list[0].vertical_offset(), 2);
    epub.scroll_text(5);
    assert_eq!(epub.viewport.top_line(), 53);
    assert_eq!(epub.image_list[0].vertical_offset(), 2);
    epub.scroll_image(5);
    assert_eq!(epub.viewport.top_line(), 53);
    assert_eq!(epub.image_list[0].vertical_offset(), -3);
    epub.scroll_image(-5);
    assert_eq!(epub.image_list[0].vertical_offset(), 2);
    epub.scroll_image(1000);
    assert_eq!(epub.image_list[0].vertical_offset(), -15);
    epub.scroll_text(1000);
    epub.scroll_image(7);
    assert_eq!(epub.image_list[0].vertical_offset(), -15);
    assert_eq!(epub.scroll_shift(-1), -1);
    assert_eq!(epub.scroll_shift(1), 0);
    assert_eq!(epub.scroll_shift(-1000), -70);
}

#[test]
fn layout_goes_by_the_width_of_the_terminal() {
    assert_eq!(Epub::width_for(80), 60);
    assert_eq!(Epub::width_for(7), 7);
    assert_eq!(Epub::width_for(-3), 0);
    assert_eq!(Epub::width_for(i32::MAX), 65535 - 2 * 8191);
    assert_eq!(Epub::rows_after_resize(41), 40);
    assert_eq!(Epub::rows_after_resize(0), -1);
    assert_eq!(Epub::rows_after_resize(i32::MIN), i32::MIN);
}

#[test]
fn heading_is_painted_bold_in_the_accent_colour() {
    let lines = vec![
        vec![
            TaggedString { s: "# ".to_string(), tag: vec![] },
            TaggedString { s: "Title".to_string(), tag: vec![] },
        ],
        vec![
            TaggedString { s: "*strong*".to_string(), tag: vec![RichAnnotation::Strong] },
            TaggedString { s: " and ".to_string(), tag: vec![RichAnnotation::Default] },
            TaggedString { s: "soft".to_string(), tag: vec![RichAnnotation::Emphasis] },
        ],
    ];
    let mut epub = Epub::new(80, 30, String::new(), String::new(), &lines);
    let frame = epub.display_chapter(800);
    assert_eq!(frame.rows.len(), 2);
    match &frame.rows[0] {
        Row::Line { line_no, pieces } => {
            assert_eq!(*line_no, 0);
            assert_eq!(pieces.len(), 1);
            assert_eq!(pieces[0].text, "Title");
            assert_eq!(pieces[0].attributes, vec![Attributes::Bold]);
            assert!(pieces[0].accent);
        }
        Row::Blank => panic!("the first row is a line"),
    }
    match &frame.rows[1] {
        Row::Line { pieces, .. } => {
            assert_eq!(piece_texts(&frame.rows[1]), vec!["strong", " and ", "soft"]);
            assert_eq!(pieces[0].attributes, vec![Attributes::Bold]);
            assert!(pieces[1].attributes.is_empty());
            assert_eq!(pieces[2].attributes, vec![Attributes::Italic]);
            assert!(!pieces[0].accent);
        }
        Row::Blank => panic!("the second row is a line"),
    }
}

#[test]
fn another_chapter_starts_on_its_first_page() {
    let mut epub = surface(100, &[(35, "images/a.png")]);
    epub.cache.store(&"images/a.png".to_string(), Some(100));
    epub.epub_draw(30, 800);
    assert_eq!(epub.image_list.len(), 1);
    let removed = epub.parse_epub_from_path(&chapter(50, &[(2, "images/a.png")]));
    assert_eq!(removed.len(), 1);
    assert_eq!(removed[0].action, Actions::Remove);
    assert_eq!(removed[0].identifier, "0");
    assert!(epub.image_list.is_empty());
    assert_eq!(epub.chapter.len(), 50);
    assert_eq!((epub.viewport.top_line(), epub.viewport.bottom_line()), (0, 30));
    assert_eq!(epub.cache.entries.len(), 1);
    let frame = epub.display_chapter(800);
    assert_eq!(frame.overlays.len(), 1);
    assert_eq!(frame.overlays[0].y, 2);
}

fn crc32(bytes: &[u8]) -> u32 {
    let mut crc: u32 = 0xffff_ffff;
    for b in bytes {
        crc ^= *b as u32;
        for _ in 0..8 {
            crc = if crc & 1 == 1 { (crc >> 1) ^ 0xedb8_8320 } else { crc >> 1 };
        }
    }
    !crc
}

fn chunk(kind: &[u8; 4], data: &[u8]) -> Vec<u8> {
    let mut out = Vec::new();
    out.extend_from_slice(&(data.len() as u32).to_be_bytes());
    let mut body = kind.to_vec();
    body.extend_from_slice(data);
    out.extend_from_slice(&body);
    out.extend_from_slice(&crc32(&body).to_be_bytes());
    out
}

fn png(width: u32, height: u32) -> Vec<u8> {
    let mut out = vec![0x89, b'P', b'N', b'G', 0x0d, 0x0a, 0x1a, 0x0a];
    let mut header = Vec::new();
    header.extend_from_slice(&width.to_be_bytes());
    header.extend_from_slice(&height.to_be_bytes());
    header.extend_from_slice(&[8, 2, 0, 0, 0]);
    out.extend(chunk(b"IHDR", &header));
    out.extend(chunk(b"IDAT", &[0x78, 0x9c, 0x03, 0x00, 0x00, 0x00, 0x00, 0x01]));
    out.extend(chunk(b"IEND", &[]));
    out
}

#[test]
fn image_takes_its_rows_from_its_bytes() {
    let lines = chapter(100, &[(4, "images/wide.png")]);
    let mut epub = Epub::new(150, 40, "book.epub".to_string(), "/tmp/s".to_string(), &lines);
    assert_eq!(epub.pending_images(), vec!["images/wide.png"]);
    let bytes = png(400, 100);
    assert_eq!(
        epub.image_extracted(&"images/wide.png".to_string(), Some(&bytes)),
        Ok("/tmp/s/wide.png".to_string())
    );
    let frame = epub.display_chapter(800);
    assert_eq!(epub.image_list.len(), 1);
    assert_eq!(epub.image_list[0].rows, 6);
    assert_eq!(frame.overlays.len(), 1);
    assert_eq!(
        frame.overlays[0].to_json(),
        "{\"action\":\"add\",\"identifier\":\"0\",\"path\":\"/tmp/s/wide.png\",\"x\":0,\"y\":4}\n"
    );
    let mut expected = lines_from(0, 5);
    expected.extend(vec![None; 6]);
    expected.extend(lines_from(5, 34));
    assert_eq!(kinds(&frame), expected);
}

fn lines_from(from: usize, to: usize) -> Vec<Option<usize>> {
    (from..to).map(Some).collect()
}

#[test]
fn offsets_keep_their_bound() {
    let mut epub = surface(100, &[(50, "images/a.png")]);
    epub.cache.store(&"images/a.png".to_string(), Some(140));
    epub.epub_draw(48, 800);
    assert!(epub.offsets_fit(0));
    assert!(epub.offsets_fit(100));
    assert!(epub.offsets_fit(0x4000_0000_0000_0000 - 2));
    assert!(!epub.offsets_fit(0x4000_0000_0000_0000 - 1));
    assert!(!epub.offsets_fit(i64::MAX));
    assert!(!epub.offsets_fit(i64::MIN));
    assert!(surface(10, &[]).offsets_fit(i64::MIN));
}
