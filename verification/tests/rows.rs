use std::collections::VecDeque;
use youtube_chat::event::{ChatMessage, MessageKind, StatusEvent};
use youtube_chat::state::AppState;
use youtube_chat::ui::{
    all_rows, body_width_for, build_continuation_line, build_lines, build_original_line,
    build_rows, build_subscription_line, count_rows, help_line, indent_of,
    max_scroll_for_viewport, message_prefix, nick_color, row_count_for_message,
    rows_from_wrapped, status_label, visible_lines, wrapped_row_count, Row, SpanStyle,
    PALETTE_SIZE,
};

fn text(author: &str, body: &str) -> ChatMessage {
    ChatMessage {
        timestamp: "14:36".to_string(),
        author: author.to_string(),
        message: body.to_string(),
        kind: MessageKind::Text,
    }
}

fn subscription(author: &str, body: &str) -> ChatMessage {
    ChatMessage {
        timestamp: "14:36".to_string(),
        author: author.to_string(),
        message: body.to_string(),
        kind: MessageKind::Subscription,
    }
}

fn line_of(row: &Row) -> String {
    row.spans.iter().map(|s| s.text.as_str()).collect()
}

fn lines_of(rows: &[Row]) -> Vec<String> {
    rows.iter().map(line_of).collect()
}

fn state_with(messages: Vec<ChatMessage>) -> AppState {
    let mut state = AppState::new("title".to_string());
    state.messages = VecDeque::from(messages);
    state
}

#[test]
fn palette_has_eight_colours() {
    assert_eq!(PALETTE_SIZE, 8);
}

#[test]
fn colour_of_a_name_is_its_hash_in_the_palette() {
    assert_eq!(nick_color(""), 0);
    assert_eq!(nick_color("a"), 97 % 8);
    assert_eq!(nick_color("ann"), 1);
    for name in ["EliQeener", "misfitspadel46", "Rapfan", "Ünain", "a much longer name than most"] {
        let hash = name.bytes().fold(0usize, |acc, b| acc.wrapping_mul(31).wrapping_add(b as usize));
        assert_eq!(nick_color(name), hash % 8, "{name}");
        assert!(nick_color(name) < PALETTE_SIZE);
    }
}

#[test]
fn prefix_holds_time_and_author() {
    assert_eq!(message_prefix(&text("ann", "hi")), "[14:36] ann: ");
}

#[test]
fn body_width_is_what_the_prefix_leaves() {
    let m = text("ann", "hi");
    assert_eq!(body_width_for(&m, 18), 5);
    assert_eq!(body_width_for(&m, 14), 1);
    assert_eq!(body_width_for(&m, 13), 1);
    assert_eq!(body_width_for(&m, 0), 1);
    assert_eq!(body_width_for(&m, usize::MAX), usize::MAX - 13);
}

#[test]
fn body_width_counts_characters_not_bytes() {
    let m = text("Zoë", "hi");
    assert_eq!(body_width_for(&m, 18), 5);
}

#[test]
fn indent_is_made_of_blanks() {
    assert_eq!(indent_of(0), "");
    assert_eq!(indent_of(3), "   ");
    assert_eq!(indent_of(13).len(), 13);
}

#[test]
fn first_row_has_five_spans() {
    let m = text("ann", "ignored");
    let row = build_original_line("hello".to_string(), &m);
    let texts: Vec<&str> = row.spans.iter().map(|s| s.text.as_str()).collect();
    assert_eq!(texts, vec!["[14:36]", " ", "ann:", " ", "hello"]);
    let styles: Vec<SpanStyle> = row.spans.iter().map(|s| s.style).collect();
    assert_eq!(
        styles,
        vec![
            SpanStyle::Timestamp,
            SpanStyle::Plain,
            SpanStyle::Author { color: 1 },
            SpanStyle::Plain,
            SpanStyle::Body,
        ]
    );
}

#[test]
fn continuation_row_has_indent_and_text() {
    let row = build_continuation_line(&"  ".to_string(), "more".to_string());
    let texts: Vec<&str> = row.spans.iter().map(|s| s.text.as_str()).collect();
    assert_eq!(texts, vec!["  ", "more"]);
    assert!(row.spans.iter().all(|s| s.style == SpanStyle::Body));
}

#[test]
fn subscription_row_has_two_spans() {
    let row = build_subscription_line(&subscription("ann", "subscribed for 1 months!"));
    let texts: Vec<&str> = row.spans.iter().map(|s| s.text.as_str()).collect();
    assert_eq!(texts, vec![" ann ", "subscribed for 1 months! "]);
    assert_eq!(row.spans[0].style, SpanStyle::SubscriberName { color: 1 });
    assert_eq!(row.spans[1].style, SpanStyle::SubscriberBody);
}

#[test]
fn wrapped_lines_become_rows_behind_prefix_and_indent() {
    let m = text("ann", "foo bar baz");
    let wrapped = vec!["foo".to_string(), "bar".to_string(), "baz".to_string()];
    let rows = rows_from_wrapped(&m, &wrapped);
    assert_eq!(
        lines_of(&rows),
        vec!["[14:36] ann: foo", "             bar", "             baz"]
    );
}

#[test]
fn body_without_lines_is_shown_whole() {
    let m = text("ann", "   ");
    let rows = rows_from_wrapped(&m, &Vec::new());
    assert_eq!(lines_of(&rows), vec!["[14:36] ann:    "]);
    assert_eq!(wrapped_row_count(&Vec::new()), 1);
}

#[test]
fn row_count_of_wrapped_lines() {
    assert_eq!(wrapped_row_count(&vec!["a".to_string()]), 1);
    assert_eq!(wrapped_row_count(&vec!["a".to_string(), "b".to_string()]), 2);
}

#[test]
fn text_message_wraps_at_the_width_behind_the_prefix() {
    let m = text("ann", "foo bar baz");
    let rows = build_lines(&m, 18);
    assert_eq!(
        lines_of(&rows),
        vec!["[14:36] ann: foo", "             bar", "             baz"]
    );
    assert_eq!(row_count_for_message(&m, 18), 3);
}

#[test]
fn text_message_fits_one_row_where_the_viewport_is_wide() {
    let m = text("ann", "foo bar baz");
    assert_eq!(lines_of(&build_lines(&m, 80)), vec!["[14:36] ann: foo bar baz"]);
    assert_eq!(row_count_for_message(&m, 80), 1);
}

#[test]
fn continuation_rows_align_with_the_body() {
    let m = text("Zoë", "Memory safety without garbage collection.");
    let rows = build_lines(&m, 13 + 15);
    assert_eq!(
        lines_of(&rows),
        vec![
            "[14:36] Zoë: Memory safety",
            "             without garbage",
            "             collection.",
        ]
    );
    for row in rows.iter().skip(1) {
        assert_eq!(row.spans[0].text.chars().count(), 13);
    }
}

#[test]
fn row_count_grows_as_the_viewport_narrows() {
    let m = text("ann", "aaaa bbbb cccc dddd");
    assert_eq!(row_count_for_message(&m, 13 + 19), 1);
    assert_eq!(row_count_for_message(&m, 13 + 9), 2);
    assert_eq!(row_count_for_message(&m, 13 + 4), 4);
    // One column for the body at the least: each character on its own row.
    assert_eq!(row_count_for_message(&m, 0), 16);
}

#[test]
fn empty_body_takes_one_row() {
    let m = text("ann", "");
    assert_eq!(row_count_for_message(&m, 40), 1);
    assert_eq!(row_count_for_message(&m, 0), 1);
    assert_eq!(lines_of(&build_lines(&m, 40)), vec!["[14:36] ann: "]);
}

#[test]
fn subscription_takes_one_row_at_any_width() {
    let m = subscription("ann", "subscribed for 29 months: a long message that would wrap as text");
    for width in [0, 1, 10, 40, 200] {
        assert_eq!(row_count_for_message(&m, width), 1);
        assert_eq!(build_rows(&m, width).len(), 1);
    }
}

#[test]
fn row_count_is_the_number_of_rows_built() {
    let messages = vec![
        text("ann", "foo bar baz"),
        subscription("bob", "subscribed for 1 months!"),
        text("a rather long author name", "some words that will not fit in a narrow pane"),
        text("ann", ""),
    ];
    for width in [0, 5, 18, 30, 60, 120] {
        for m in &messages {
            assert_eq!(build_rows(m, width).len(), row_count_for_message(m, width));
            assert!(row_count_for_message(m, width) >= 1);
        }
    }
}

#[test]
fn rows_of_a_log_follow_its_messages() {
    let log = VecDeque::from(vec![
        text("ann", "foo bar baz"),
        subscription("bob", "subscribed for 1 months!"),
        text("ann", "ok"),
    ]);
    let rows = all_rows(&log, 18);
    assert_eq!(
        lines_of(&rows),
        vec![
            "[14:36] ann: foo",
            "             bar",
            "             baz",
            " bob subscribed for 1 months! ",
            "[14:36] ann: ok",
        ]
    );
    assert_eq!(count_rows(&log, 18), 5);
    assert_eq!(count_rows(&VecDeque::new(), 18), 0);
    assert!(all_rows(&VecDeque::new(), 18).is_empty());
}

#[test]
fn max_scroll_is_the_rows_that_do_not_fit() {
    let state = state_with(vec![
        text("ann", "foo bar baz"),
        subscription("bob", "subscribed for 1 months!"),
        text("ann", "ok"),
    ]);
    assert_eq!(max_scroll_for_viewport(&state, 18, 2), 3);
    assert_eq!(max_scroll_for_viewport(&state, 18, 5), 0);
    assert_eq!(max_scroll_for_viewport(&state, 18, 9), 0);
    assert_eq!(max_scroll_for_viewport(&state, 80, 2), 1);
    assert_eq!(max_scroll_for_viewport(&state, 18, 0), 5);
}

#[test]
fn visible_lines_are_the_window_of_the_rows() {
    let mut state = state_with(vec![
        text("ann", "foo bar baz"),
        subscription("bob", "subscribed for 1 months!"),
        text("ann", "ok"),
    ]);
    assert_eq!(
        lines_of(&visible_lines(&state, 18, 2)),
        vec![" bob subscribed for 1 months! ", "[14:36] ann: ok"]
    );
    state.scroll_state.scroll_offset = 2;
    assert_eq!(
        lines_of(&visible_lines(&state, 18, 2)),
        vec!["             bar", "             baz"]
    );
    state.scroll_state.scroll_offset = 3;
    assert_eq!(
        lines_of(&visible_lines(&state, 18, 2)),
        vec!["[14:36] ann: foo", "             bar"]
    );
    // An offset beyond the bound is drawn at the bound.
    state.scroll_state.scroll_offset = 40;
    assert_eq!(
        lines_of(&visible_lines(&state, 18, 2)),
        vec!["[14:36] ann: foo", "             bar"]
    );
    assert_eq!(visible_lines(&state, 18, 9).len(), 5);
    assert!(visible_lines(&state, 18, 0).is_empty());
}

#[test]
fn help_line_names_the_scroll_mode() {
    assert_eq!(
        help_line(true),
        "[FOLLOWING LIVE CHAT] - [Up/Down/PgUp/PgDn/Home/End] scroll - [ESC/q] quit"
    );
    assert_eq!(
        help_line(false),
        "[FOLLOW DISABLED] - [Up/Down/PgUp/PgDn/Home/End] scroll - [ESC/q] quit"
    );
}

#[test]
fn status_label_names_the_state_of_the_feed() {
    assert_eq!(status_label(StatusEvent::Connecting), "connecting");
    assert_eq!(status_label(StatusEvent::Connected), "live");
    assert_eq!(status_label(StatusEvent::Disconnected), "disconnected");
}
