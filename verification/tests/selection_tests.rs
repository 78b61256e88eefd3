use git_tui::selection::{clamp, fits, select_next, select_previous};

#[test]
fn next_steps_forward() {
    assert_eq!(select_next(Some(0), 3), Some(1));
    assert_eq!(select_next(Some(1), 3), Some(2));
}

#[test]
fn next_wraps_from_last_to_first() {
    assert_eq!(select_next(Some(2), 3), Some(0));
    assert_eq!(select_next(Some(0), 1), Some(0));
}

#[test]
fn previous_steps_backward() {
    assert_eq!(select_previous(Some(2), 3), Some(1));
    assert_eq!(select_previous(Some(1), 3), Some(0));
}

#[test]
fn previous_wraps_from_first_to_last() {
    assert_eq!(select_previous(Some(0), 3), Some(2));
    assert_eq!(select_previous(Some(0), 1), Some(0));
}

#[test]
fn moves_on_empty_list_keep_the_cursor() {
    assert_eq!(select_next(None, 0), None);
    assert_eq!(select_previous(None, 0), None);
}

#[test]
fn moves_without_cursor_start_at_the_first_item() {
    assert_eq!(select_next(None, 4), Some(0));
    assert_eq!(select_previous(None, 4), Some(0));
}

#[test]
fn next_from_beyond_the_end_returns_to_the_first_item() {
    assert_eq!(select_next(Some(9), 3), Some(0));
}

#[test]
fn as_many_steps_as_items_return_to_the_start() {
    for len in 1..6usize {
        for start in 0..len {
            let mut cursor = Some(start);
            for _ in 0..len {
                cursor = select_next(cursor, len);
            }
            assert_eq!(cursor, Some(start));
        }
    }
}

#[test]
fn clamp_keeps_a_cursor_that_fits() {
    assert_eq!(clamp(Some(1), 3), Some(1));
    assert_eq!(clamp(Some(2), 3), Some(2));
}

#[test]
fn clamp_moves_a_cursor_beyond_the_end_to_the_last_item() {
    assert_eq!(clamp(Some(3), 3), Some(2));
    assert_eq!(clamp(Some(7), 2), Some(1));
    assert_eq!(clamp(Some(usize::MAX), 1), Some(0));
}

#[test]
fn clamp_clears_the_cursor_of_an_empty_list() {
    assert_eq!(clamp(Some(0), 0), None);
    assert_eq!(clamp(None, 0), None);
}

#[test]
fn clamp_puts_a_missing_cursor_on_the_first_item() {
    assert_eq!(clamp(None, 5), Some(0));
}

#[test]
fn cursor_fits_when_it_points_into_the_list() {
    assert!(fits(Some(0), 1));
    assert!(fits(Some(2), 3));
    assert!(!fits(Some(3), 3));
    assert!(!fits(Some(0), 0));
}

#[test]
fn missing_cursor_fits_only_the_empty_list() {
    assert!(fits(None, 0));
    assert!(!fits(None, 1));
}

#[test]
fn moves_and_clamps_yield_cursors_that_fit() {
    for len in 0..5usize {
        for start in [None, Some(0), Some(1), Some(4), Some(9)] {
            assert!(fits(clamp(start, len), len));
            if fits(start, len) {
                assert_eq!(clamp(start, len), start);
                assert!(fits(select_next(start, len), len));
                assert!(fits(select_previous(start, len), len));
                assert_eq!(select_previous(select_next(start, len), len), start);
            }
        }
    }
}
