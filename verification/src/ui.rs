//! Rows: how a message becomes wrapped, styled lines.
//!
//! The row is the unit of scrolling. A text message takes as many rows as its
//! body wraps to at the width that the prefix leaves; a subscription takes
//! one. Colours are left to the renderer: a span names its role, and for an
//! author the place of the colour in a palette of `PALETTE_SIZE` entries.

use crate::event::{ChatMessage, ChatMessageView, MessageKind, StatusEvent};
use crate::state::AppState;
use std::collections::VecDeque;
use vstd::prelude::*;
use vstd::string::*;
use vstd::utf8::*;

verus! {

/// The lines into which `textwrap::wrap` breaks `text` at `width` columns,
/// with the options that a plain width stands for.
pub uninterp spec fn wrapped_lines(text: Seq<char>, width: usize) -> Seq<Seq<char>>;

/// Calls `textwrap::wrap` with a plain width and copies each line that comes
/// back into a `String`. Nothing is claimed of the lines but that they are
/// the ones `wrapped_lines` names: the same text and width give the same
/// lines.
#[verifier::external_body]
fn wrap_text(text: &str, width: usize) -> (lines: Vec<String>)
    ensures
        lines.deep_view() == wrapped_lines(text@, width),
{
    textwrap::wrap(text, width).into_iter().map(|line| line.into_owned()).collect()
}

/// Number of colours among which authors are told apart.
pub const PALETTE_SIZE: usize = 8;

/// The hash of a name: over its bytes in order, 31 times the hash so far plus
/// the byte, wrapping at the width of `usize`.
pub open spec fn name_hash(bytes: Seq<u8>) -> usize
    decreases bytes.len(),
{
    if bytes.len() == 0 {
        0
    } else {
        name_hash(bytes.drop_last()).wrapping_mul(31).wrapping_add(bytes.last() as usize)
    }
}

/// The place in the palette of the colour of a name.
pub open spec fn palette_index(name: Seq<char>) -> usize {
    name_hash(encode_utf8(name)) % PALETTE_SIZE
}

/// The place in the palette of the colour in which a name is shown.
pub fn nick_color(name: &str) -> (index: usize)
    ensures
        index == palette_index(name@),
        index < PALETTE_SIZE,
{
    let bytes = name.as_bytes();
    let mut hash: usize = 0;
    let mut i: usize = 0;
    proof {
        assert(bytes@.subrange(0, 0) =~= Seq::<u8>::empty());
    }
    while i < bytes.len()
        invariant
            i <= bytes.len(),
            hash == name_hash(bytes@.subrange(0, i as int)),
        decreases bytes.len() - i,
    {
        proof {
            let upto = bytes@.subrange(0, i as int + 1);
            assert(upto.drop_last() =~= bytes@.subrange(0, i as int));
            assert(upto.last() == bytes@[i as int]);
        }
        hash = hash.wrapping_mul(31).wrapping_add(bytes[i] as usize);
        i += 1;
    }
    proof {
        assert(bytes@.subrange(0, i as int) =~= bytes@);
    }
    hash % PALETTE_SIZE
}

/// The role of a span of a row; the renderer picks the colours.
#[derive(Debug, Clone, Copy, PartialEq, Eq, Structural)]
pub enum SpanStyle {
    /// The bracketed time in front of a text message.
    Timestamp,
    /// A separating blank.
    Plain,
    /// The author of a text message, in the palette colour `color`.
    Author { color: usize },
    /// The body of a text message, and the indent of its later rows.
    Body,
    /// The author of a subscription, in the palette colour `color`.
    SubscriberName { color: usize },
    /// The body of a subscription.
    SubscriberBody,
}

/// A run of characters in one style.
#[derive(Debug, Clone)]
pub struct Span {
    pub text: String,
    pub style: SpanStyle,
}

/// What a `Span` holds, as a sequence of characters.
pub struct SpanView {
    pub text: Seq<char>,
    pub style: SpanStyle,
}

impl View for Span {
    type V = SpanView;

    open spec fn view(&self) -> SpanView {
        SpanView { text: self.text@, style: self.style }
    }
}

impl DeepView for Span {
    type V = SpanView;

    open spec fn deep_view(&self) -> SpanView {
        self@
    }
}

/// One rendered line: its spans from left to right.
#[derive(Debug, Clone)]
pub struct Row {
    pub spans: Vec<Span>,
}

impl View for Row {
    type V = Seq<SpanView>;

    open spec fn view(&self) -> Seq<SpanView> {
        self.spans.deep_view()
    }
}

impl DeepView for Row {
    type V = Seq<SpanView>;

    open spec fn deep_view(&self) -> Seq<SpanView> {
        self@
    }
}

/// The characters of a row, its spans joined.
pub open spec fn row_text(row: Seq<SpanView>) -> Seq<char>
    decreases row.len(),
{
    if row.len() == 0 {
        Seq::empty()
    } else {
        row_text(row.drop_last()) + row.last().text
    }
}

/// What stands in front of the body of a text message: the time in
/// brackets, a blank, the author, a colon and a blank.
pub open spec fn prefix_text(m: ChatMessageView) -> Seq<char> {
    "["@ + m.timestamp + "]"@ + " "@ + m.author + ":"@ + " "@
}

/// The width that the prefix leaves for the body, and one column at least.
pub open spec fn body_width(m: ChatMessageView, chat_width: usize) -> usize {
    if chat_width - prefix_text(m).len() >= 1 {
        (chat_width - prefix_text(m).len()) as usize
    } else {
        1
    }
}

/// `n` blanks.
pub open spec fn blanks(n: nat) -> Seq<char> {
    Seq::new(n, |i: int| ' ')
}

/// The first row of a text message: prefix and `text`, each part in its
/// style.
pub open spec fn head_row(m: ChatMessageView, text: Seq<char>) -> Seq<SpanView> {
    seq![
        SpanView { text: "["@ + m.timestamp + "]"@, style: SpanStyle::Timestamp },
        SpanView { text: " "@, style: SpanStyle::Plain },
        SpanView {
            text: m.author + ":"@,
            style: SpanStyle::Author { color: palette_index(m.author) },
        },
        SpanView { text: " "@, style: SpanStyle::Plain },
        SpanView { text: text, style: SpanStyle::Body },
    ]
}

/// A later row of a text message: `text` behind as many blanks as the prefix
/// is wide.
pub open spec fn continuation_row(m: ChatMessageView, text: Seq<char>) -> Seq<SpanView> {
    seq![
        SpanView { text: blanks(prefix_text(m).len()), style: SpanStyle::Body },
        SpanView { text: text, style: SpanStyle::Body },
    ]
}

/// The one row of a subscription: the author between blanks, then the body
/// and a blank.
pub open spec fn subscription_row(m: ChatMessageView) -> Seq<SpanView> {
    seq![
        SpanView {
            text: " "@ + m.author + " "@,
            style: SpanStyle::SubscriberName { color: palette_index(m.author) },
        },
        SpanView { text: m.message + " "@, style: SpanStyle::SubscriberBody },
    ]
}

/// The rows of a text message whose body wrapped to `wrapped`: the first
/// line behind the prefix, each later line behind the indent. A body that
/// wrapped to no line at all is shown whole on one row.
pub open spec fn rows_of_wrapped(m: ChatMessageView, wrapped: Seq<Seq<char>>) -> Seq<Seq<SpanView>> {
    if wrapped.len() == 0 {
        seq![head_row(m, m.message)]
    } else {
        Seq::new(
            wrapped.len(),
            |i: int|
                if i == 0 {
                    head_row(m, wrapped[0])
                } else {
                    continuation_row(m, wrapped[i])
                },
        )
    }
}

/// The rows of a text message at a viewport `chat_width` columns wide.
pub open spec fn text_rows(m: ChatMessageView, chat_width: usize) -> Seq<Seq<SpanView>> {
    rows_of_wrapped(m, wrapped_lines(m.message, body_width(m, chat_width)))
}

/// The rows of a message at a viewport `chat_width` columns wide.
pub open spec fn message_rows(m: ChatMessageView, chat_width: usize) -> Seq<Seq<SpanView>> {
    match m.kind {
        MessageKind::Text => text_rows(m, chat_width),
        MessageKind::Subscription => seq![subscription_row(m)],
    }
}

/// The prefix is five characters wider than time and author together.
pub proof fn lemma_prefix_width(m: ChatMessageView)
    ensures
        prefix_text(m).len() == m.timestamp.len() + m.author.len() + 5,
{
    reveal_strlit("[");
    reveal_strlit("]");
    reveal_strlit(" ");
    reveal_strlit(":");
}

/// Alignment: the first row of a text message reads as the prefix and then
/// the text, a later row as blanks of the width of the prefix and then the
/// text. So the text of every row of a message starts in the same column.
pub proof fn lemma_rows_align(m: ChatMessageView, text: Seq<char>)
    ensures
        row_text(head_row(m, text)) == prefix_text(m) + text,
        row_text(continuation_row(m, text)) == blanks(prefix_text(m).len()) + text,
        blanks(prefix_text(m).len()).len() == prefix_text(m).len(),
{
    let head = head_row(m, text);
    assert(head.drop_last() =~= seq![head[0], head[1], head[2], head[3]]);
    assert(head.drop_last().drop_last() =~= seq![head[0], head[1], head[2]]);
    assert(head.drop_last().drop_last().drop_last() =~= seq![head[0], head[1]]);
    assert(head.drop_last().drop_last().drop_last().drop_last() =~= seq![head[0]]);
    assert(seq![head[0]].drop_last() =~= Seq::<SpanView>::empty());
    reveal_with_fuel(row_text, 6);
    assert(row_text(head) =~= prefix_text(m) + text);
    let later = continuation_row(m, text);
    assert(later.drop_last() =~= seq![later[0]]);
    assert(seq![later[0]].drop_last() =~= Seq::<SpanView>::empty());
    assert(row_text(later) =~= blanks(prefix_text(m).len()) + text);
}

/// The prefix of a text message.
pub fn message_prefix(m: &ChatMessage) -> (prefix: String)
    ensures
        prefix@ == prefix_text(m@),
{
    let prefix = String::from_str("[");
    let prefix = prefix.concat(m.timestamp.as_str());
    let prefix = prefix.concat("]");
    let prefix = prefix.concat(" ");
    let prefix = prefix.concat(m.author.as_str());
    let prefix = prefix.concat(":");
    prefix.concat(" ")
}

/// The width left for the body of a text message.
pub fn body_width_for(m: &ChatMessage, chat_width: usize) -> (width: usize)
    ensures
        width == body_width(m@, chat_width),
        width >= 1,
{
    let prefix = message_prefix(m);
    let prefix_len = prefix.as_str().unicode_len();
    let left = chat_width.saturating_sub(prefix_len);
    if left < 1 {
        1
    } else {
        left
    }
}

/// A string of `n` blanks.
pub fn indent_of(n: usize) -> (indent: String)
    ensures
        indent@ == blanks(n as nat),
{
    let mut indent = String::new();
    let mut i: usize = 0;
    proof {
        assert(indent@ =~= blanks(0));
    }
    while i < n
        invariant
            i <= n,
            indent@ == blanks(i as nat),
        decreases n - i,
    {
        indent.append(" ");
        i += 1;
        proof {
            reveal_strlit(" ");
            assert(indent@ =~= blanks(i as nat));
        }
    }
    indent
}

/// The first row of a text message, with `text` for its body.
pub fn build_original_line(text: String, m: &ChatMessage) -> (row: Row)
    ensures
        row@ == head_row(m@, text@),
{
    let mut spans: Vec<Span> = Vec::new();
    let stamp = String::from_str("[").concat(m.timestamp.as_str()).concat("]");
    spans.push(Span { text: stamp, style: SpanStyle::Timestamp });
    spans.push(Span { text: String::from_str(" "), style: SpanStyle::Plain });
    let author = m.author.clone().concat(":");
    spans.push(Span { text: author, style: SpanStyle::Author { color: nick_color(m.author.as_str()) } });
    spans.push(Span { text: String::from_str(" "), style: SpanStyle::Plain });
    spans.push(Span { text, style: SpanStyle::Body });
    let row = Row { spans };
    proof {
        assert(row@ =~= head_row(m@, text@));
    }
    row
}

/// A later row of a text message: `text` behind `indent`.
pub fn build_continuation_line(indent: &String, text: String) -> (row: Row)
    ensures
        row@ == seq![
            SpanView { text: indent@, style: SpanStyle::Body },
            SpanView { text: text@, style: SpanStyle::Body },
        ],
{
    let mut spans: Vec<Span> = Vec::new();
    spans.push(Span { text: indent.clone(), style: SpanStyle::Body });
    spans.push(Span { text, style: SpanStyle::Body });
    let row = Row { spans };
    proof {
        assert(row@ =~= seq![
            SpanView { text: indent@, style: SpanStyle::Body },
            SpanView { text: text@, style: SpanStyle::Body },
        ]);
    }
    row
}

/// The one row of a subscription.
pub fn build_subscription_line(m: &ChatMessage) -> (row: Row)
    ensures
        row@ == subscription_row(m@),
{
    let mut spans: Vec<Span> = Vec::new();
    let name = String::from_str(" ").concat(m.author.as_str()).concat(" ");
    spans.push(
        Span { text: name, style: SpanStyle::SubscriberName { color: nick_color(m.author.as_str()) } },
    );
    let body = m.message.clone().concat(" ");
    spans.push(Span { text: body, style: SpanStyle::SubscriberBody });
    let row = Row { spans };
    proof {
        assert(row@ =~= subscription_row(m@));
    }
    row
}

/// Lays out a text message whose body has been wrapped to `wrapped`.
pub fn rows_from_wrapped(m: &ChatMessage, wrapped: &Vec<String>) -> (rows: Vec<Row>)
    ensures
        rows.deep_view() == rows_of_wrapped(m@, wrapped.deep_view()),
        rows.len() == rows_for_lines(wrapped.len() as nat),
{
    let mut rows: Vec<Row> = Vec::new();
    if wrapped.len() == 0 {
        rows.push(build_original_line(m.message.clone(), m));
        proof {
            assert(rows.deep_view() =~= rows_of_wrapped(m@, wrapped.deep_view()));
        }
        return rows;
    }
    rows.push(build_original_line(wrapped[0].clone(), m));
    let prefix = message_prefix(m);
    let indent = indent_of(prefix.as_str().unicode_len());
    let mut i: usize = 1;
    let ghost target = rows_of_wrapped(m@, wrapped.deep_view());
    proof {
        assert(rows.deep_view() =~= target.subrange(0, 1));
    }
    while i < wrapped.len()
        invariant
            1 <= i <= wrapped.len(),
            indent@ == blanks(prefix_text(m@).len()),
            target == rows_of_wrapped(m@, wrapped.deep_view()),
            rows.deep_view() == target.subrange(0, i as int),
        decreases wrapped.len() - i,
    {
        let ghost before = rows.deep_view();
        let row = build_continuation_line(&indent, wrapped[i].clone());
        rows.push(row);
        proof {
            assert(row@ == continuation_row(m@, wrapped.deep_view()[i as int]));
            assert(rows.deep_view() =~= before.push(row@));
            assert(before.push(row@) =~= target.subrange(0, i as int + 1));
        }
        i += 1;
    }
    proof {
        assert(target.subrange(0, i as int) =~= target);
    }
    rows
}

/// Lays out a text message at a viewport `chat_width` columns wide.
pub fn build_lines(m: &ChatMessage, chat_width: usize) -> (rows: Vec<Row>)
    ensures
        rows.deep_view() == text_rows(m@, chat_width),
        rows.len() == text_rows(m@, chat_width).len(),
{
    let wrapped = wrap_text(m.message.as_str(), body_width_for(m, chat_width));
    rows_from_wrapped(m, &wrapped)
}

/// Lays out a message at a viewport `chat_width` columns wide.
pub fn build_rows(m: &ChatMessage, chat_width: usize) -> (rows: Vec<Row>)
    ensures
        rows.deep_view() == message_rows(m@, chat_width),
        rows.len() == message_row_count(m@, chat_width),
{
    match m.kind {
        MessageKind::Text => build_lines(m, chat_width),
        MessageKind::Subscription => {
            let mut rows: Vec<Row> = Vec::new();
            rows.push(build_subscription_line(m));
            proof {
                assert(rows.deep_view() =~= seq![subscription_row(m@)]);
            }
            rows
        },
    }
}

/// The number of rows that a body takes which wrapped to `lines` lines: one
/// at least.
pub open spec fn rows_for_lines(lines: nat) -> nat {
    if lines == 0 {
        1
    } else {
        lines
    }
}

/// The number of rows that a message takes at a viewport `chat_width`
/// columns wide.
pub open spec fn message_row_count(m: ChatMessageView, chat_width: usize) -> nat {
    message_rows(m, chat_width).len()
}

/// The rows of a log, oldest message first.
pub open spec fn log_rows(log: Seq<ChatMessage>, chat_width: usize) -> Seq<Seq<SpanView>>
    decreases log.len(),
{
    if log.len() == 0 {
        Seq::empty()
    } else {
        log_rows(log.drop_last(), chat_width) + message_rows(log.last()@, chat_width)
    }
}

/// The number of rows of a log.
pub open spec fn total_rows(log: Seq<ChatMessage>, chat_width: usize) -> nat {
    log_rows(log, chat_width).len()
}

/// A count as far as `usize` holds it.
pub open spec fn capped(n: nat) -> usize {
    if n > usize::MAX {
        usize::MAX
    } else {
        n as usize
    }
}

/// The largest offset at which the viewport is still full: the rows that do
/// not fit, none where all fit.
pub open spec fn max_scroll(total: nat, visible: nat) -> nat {
    if total > visible {
        (total - visible) as nat
    } else {
        0
    }
}

/// The offset as drawn: never beyond `max_scroll`.
pub open spec fn drawn_offset(total: nat, visible: nat, offset: nat) -> nat {
    if offset <= max_scroll(total, visible) {
        offset
    } else {
        max_scroll(total, visible)
    }
}

/// The row just behind the last one shown.
pub open spec fn window_end(total: nat, visible: nat, offset: nat) -> nat {
    (total - drawn_offset(total, visible, offset)) as nat
}

/// The first row shown.
pub open spec fn window_start(total: nat, visible: nat, offset: nat) -> nat {
    max_scroll(window_end(total, visible, offset), visible)
}

/// Every message takes a row at least, a subscription exactly one at any
/// width, and a text message as many as its body wraps to at the width that
/// its prefix leaves.
pub proof fn lemma_message_row_count(m: ChatMessageView, chat_width: usize)
    ensures
        message_row_count(m, chat_width) >= 1,
        m.kind == MessageKind::Subscription ==> message_row_count(m, chat_width) == 1,
        m.kind == MessageKind::Text ==> message_row_count(m, chat_width) == rows_for_lines(
            wrapped_lines(m.message, body_width(m, chat_width)).len(),
        ),
{
}

/// A log takes the rows of its messages, one after the other.
pub proof fn lemma_total_rows_push(log: Seq<ChatMessage>, m: ChatMessage, chat_width: usize)
    ensures
        log_rows(log.push(m), chat_width) == log_rows(log, chat_width) + message_rows(
            m@,
            chat_width,
        ),
        total_rows(log.push(m), chat_width) == total_rows(log, chat_width) + message_row_count(
            m@,
            chat_width,
        ),
{
    assert(log.push(m).drop_last() =~= log);
}

/// The number of rows for a body that has been wrapped to `wrapped`.
pub fn wrapped_row_count(wrapped: &Vec<String>) -> (count: usize)
    ensures
        count == rows_for_lines(wrapped.deep_view().len()),
{
    if wrapped.len() == 0 {
        1
    } else {
        wrapped.len()
    }
}

/// The number of rows that a message takes at a viewport `chat_width`
/// columns wide.
pub fn row_count_for_message(m: &ChatMessage, chat_width: usize) -> (count: usize)
    ensures
        count == message_row_count(m@, chat_width),
        count >= 1,
        m.kind == MessageKind::Subscription ==> count == 1,
{
    match m.kind {
        MessageKind::Text => {
            let wrapped = wrap_text(m.message.as_str(), body_width_for(m, chat_width));
            wrapped_row_count(&wrapped)
        },
        MessageKind::Subscription => 1,
    }
}

/// The number of rows of a log, as far as `usize` holds it.
pub fn count_rows(messages: &VecDeque<ChatMessage>, chat_width: usize) -> (total: usize)
    ensures
        total == capped(total_rows(messages@, chat_width)),
{
    let mut total: usize = 0;
    let mut i: usize = 0;
    proof {
        assert(messages@.subrange(0, 0) =~= Seq::<ChatMessage>::empty());
    }
    while i < messages.len()
        invariant
            i <= messages.len(),
            total == capped(total_rows(messages@.subrange(0, i as int), chat_width)),
        decreases messages.len() - i,
    {
        let count = row_count_for_message(&messages[i], chat_width);
        proof {
            assert(messages@.subrange(0, i as int + 1) =~= messages@.subrange(0, i as int).push(
                messages@[i as int],
            ));
            lemma_total_rows_push(messages@.subrange(0, i as int), messages@[i as int], chat_width);
        }
        total = total.saturating_add(count);
        i += 1;
    }
    proof {
        assert(messages@.subrange(0, i as int) =~= messages@);
    }
    total
}

/// The bound on the scroll offset for a viewport `visible_rows` high and
/// `chat_width` wide.
pub fn max_scroll_for_viewport(app: &AppState, chat_width: usize, visible_rows: usize) -> (bound:
    usize)
    ensures
        bound == max_scroll(
            capped(total_rows(app.messages@, chat_width)) as nat,
            visible_rows as nat,
        ),
{
    let total = count_rows(&app.messages, chat_width);
    total.saturating_sub(visible_rows)
}

/// The rows `[start, end)` that a viewport shows of `total` rows, `visible`
/// high, scrolled `offset` rows up from the bottom.
pub fn viewport_window(total: usize, visible: usize, offset: usize) -> (window: (usize, usize))
    ensures
        window.0 == window_start(total as nat, visible as nat, offset as nat),
        window.1 == window_end(total as nat, visible as nat, offset as nat),
        window.0 <= window.1 <= total,
        window.1 - window.0 <= visible,
        offset <= max_scroll(total as nat, visible as nat) ==> window.1 == total - offset,
{
    let bound = total.saturating_sub(visible);
    let scroll = if offset < bound {
        offset
    } else {
        bound
    };
    let end = total - scroll;
    let start = end.saturating_sub(visible);
    (start, end)
}

/// The rows of a log, oldest message first.
pub fn all_rows(messages: &VecDeque<ChatMessage>, chat_width: usize) -> (rows: Vec<Row>)
    ensures
        rows.deep_view() == log_rows(messages@, chat_width),
        rows.len() == total_rows(messages@, chat_width),
{
    let mut rows: Vec<Row> = Vec::new();
    let mut i: usize = 0;
    proof {
        assert(messages@.subrange(0, 0) =~= Seq::<ChatMessage>::empty());
        assert(rows.deep_view() =~= Seq::<Seq<SpanView>>::empty());
    }
    while i < messages.len()
        invariant
            i <= messages.len(),
            rows.deep_view() == log_rows(messages@.subrange(0, i as int), chat_width),
        decreases messages.len() - i,
    {
        let ghost before = rows.deep_view();
        let mut more = build_rows(&messages[i], chat_width);
        let ghost added = more.deep_view();
        rows.append(&mut more);
        proof {
            assert(rows.deep_view() =~= before + added);
            assert(messages@.subrange(0, i as int + 1) =~= messages@.subrange(0, i as int).push(
                messages@[i as int],
            ));
            lemma_total_rows_push(messages@.subrange(0, i as int), messages@[i as int], chat_width);
        }
        i += 1;
    }
    proof {
        assert(messages@.subrange(0, i as int) =~= messages@);
    }
    rows
}

/// The rows that a viewport `visible_rows` high and `chat_width` wide shows
/// of the log, at the scroll offset of the state.
pub fn visible_lines(app: &AppState, chat_width: usize, visible_rows: usize) -> (rows: Vec<Row>)
    ensures
        rows.deep_view() == log_rows(app.messages@, chat_width).subrange(
            window_start(
                total_rows(app.messages@, chat_width),
                visible_rows as nat,
                app.scroll_state.scroll_offset as nat,
            ) as int,
            window_end(
                total_rows(app.messages@, chat_width),
                visible_rows as nat,
                app.scroll_state.scroll_offset as nat,
            ) as int,
        ),
{
    let mut rows = all_rows(&app.messages, chat_width);
    let ghost all = rows.deep_view();
    let (start, end) = viewport_window(rows.len(), visible_rows, app.scroll_state.scroll_offset);
    rows.truncate(end);
    let shown = rows.split_off(start);
    proof {
        assert(shown.deep_view() =~= all.subrange(start as int, end as int));
    }
    shown
}

/// How the help line names the scroll mode.
pub open spec fn follow_label(auto_scroll: bool) -> Seq<char> {
    if auto_scroll {
        "[FOLLOWING LIVE CHAT]"@
    } else {
        "[FOLLOW DISABLED]"@
    }
}

/// The help line: the scroll mode, then the keys.
pub open spec fn help_text(auto_scroll: bool) -> Seq<char> {
    follow_label(auto_scroll) + " - [Up/Down/PgUp/PgDn/Home/End] scroll - [ESC/q] quit"@
}

/// The help line under the chat pane.
pub fn help_line(auto_scroll: bool) -> (line: String)
    ensures
        line@ == help_text(auto_scroll),
{
    let label = if auto_scroll {
        String::from_str("[FOLLOWING LIVE CHAT]")
    } else {
        String::from_str("[FOLLOW DISABLED]")
    };
    label.concat(" - [Up/Down/PgUp/PgDn/Home/End] scroll - [ESC/q] quit")
}

/// How the title names the state of the chat feed.
pub open spec fn status_text(status: StatusEvent) -> Seq<char> {
    match status {
        StatusEvent::Connecting => "connecting"@,
        StatusEvent::Connected => "live"@,
        StatusEvent::Disconnected => "disconnected"@,
    }
}

/// The name of the state of the chat feed, for the title.
pub fn status_label(status: StatusEvent) -> (label: String)
    ensures
        label@ == status_text(status),
{
    match status {
        StatusEvent::Connecting => String::from_str("connecting"),
        StatusEvent::Connected => String::from_str("live"),
        StatusEvent::Disconnected => String::from_str("disconnected"),
    }
}

} // verus!
