use lightnovel_cli::overlay::{compute_row_span, compute_rows_consumed, is_cut_by_top, is_eligible};

#[test]
fn row_span_of_a_small_image() {
    assert_eq!(compute_row_span(40, 100, 800), Some(6));
}

#[test]
fn row_span_is_at_least_one_row() {
    assert_eq!(compute_row_span(40, 0, 800), Some(1));
    assert_eq!(compute_row_span(0, 100, 800), Some(1));
    assert_eq!(compute_row_span(40, 19, 800), Some(1));
    assert_eq!(compute_row_span(40, 20, 800), Some(2));
}

#[test]
fn row_span_needs_the_height_of_the_terminal() {
    assert_eq!(compute_row_span(40, 100, 0), None);
}

#[test]
fn row_span_of_the_largest_sizes() {
    assert_eq!(compute_row_span(u16::MAX, u32::MAX, 1), Some(65535u64 * 4294967295u64 + 1));
}

#[test]
fn eligible_when_any_row_is_in_the_grid() {
    assert!(is_eligible(2, 6, 30));
    assert!(is_eligible(-3, 6, 30));
    assert!(!is_eligible(-7, 6, 30));
    assert!(!is_eligible(-6, 6, 30));
    assert!(is_eligible(-5, 6, 30));
    assert!(is_eligible(29, 6, 30));
    assert!(!is_eligible(30, 6, 30));
    assert!(!is_eligible(i64::MIN, 6, 30));
    assert!(!is_eligible(i64::MAX, u64::MAX, 30));
}

#[test]
fn eligible_agrees_with_the_rows_in_common() {
    for offset in -12i64..40 {
        for rows in 1u64..9 {
            let common = (0..30i64).any(|r| offset <= r && r < offset + rows as i64);
            assert_eq!(is_eligible(offset, rows, 30), common);
        }
    }
}

#[test]
fn cut_by_top_when_partly_above() {
    assert!(is_cut_by_top(-3, 6));
    assert!(!is_cut_by_top(0, 6));
    assert!(!is_cut_by_top(-6, 6));
    assert!(!is_cut_by_top(4, 6));
}

#[test]
fn rows_consumed_is_cut_at_the_bottom() {
    assert_eq!(compute_rows_consumed(2, 6, 30), 6);
    assert_eq!(compute_rows_consumed(27, 6, 30), 3);
    assert_eq!(compute_rows_consumed(0, 6, 30), 6);
    assert_eq!(compute_rows_consumed(-3, 6, 30), 6);
    assert_eq!(compute_rows_consumed(-3, 60, 30), 30);
    assert_eq!(compute_rows_consumed(29, 1, 30), 1);
}
