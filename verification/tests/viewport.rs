use youtube_chat::ui::viewport_window;

#[test]
fn row_slice_of_ten_rows() {
    let (start, end) = viewport_window(10, 4, 3);
    assert_eq!(end, 7);
    assert_eq!(start, 3);
}

#[test]
fn window_at_the_bottom_shows_the_newest_rows() {
    assert_eq!(viewport_window(10, 4, 0), (6, 10));
}

#[test]
fn window_at_the_top_starts_with_the_first_row() {
    assert_eq!(viewport_window(10, 4, 6), (0, 4));
}

#[test]
fn window_does_not_scroll_beyond_the_top() {
    assert_eq!(viewport_window(10, 4, 7), (0, 4));
    assert_eq!(viewport_window(10, 4, usize::MAX), (0, 4));
}

#[test]
fn window_of_a_short_log_shows_all_of_it() {
    assert_eq!(viewport_window(3, 4, 0), (0, 3));
    assert_eq!(viewport_window(3, 4, 2), (0, 3));
}

#[test]
fn window_of_an_empty_log_is_empty() {
    assert_eq!(viewport_window(0, 4, 0), (0, 0));
    assert_eq!(viewport_window(0, 0, 5), (0, 0));
}

#[test]
fn window_of_a_viewport_without_rows_is_empty() {
    assert_eq!(viewport_window(10, 0, 3), (7, 7));
}
