//! The scrollback model: the bounded message log and the scroll state.

use crate::event::{quits, is_quit_key, ChatMessage, KeyCode, KeyEvent, StatsMessage, StatusEvent};
use crate::ui::{
    capped, lemma_total_rows_push, log_rows, max_scroll, max_scroll_for_viewport,
    message_row_count, row_count_for_message, total_rows, window_end, window_start,
};
use std::collections::VecDeque;
use vstd::prelude::*;

verus! {

/// How many messages the log holds at most.
pub const MAX_MESSAGES: usize = 500;

/// Where the view stands in the wrapped log.
///
/// `scroll_offset` counts rows from the bottom of the log. `visible_rows` and
/// `chat_width` are the height and width of the viewport as last known, and
/// `max_scroll_rows` is the bound on `scroll_offset` as last computed.
#[derive(Debug, Clone, Copy, PartialEq, Eq, Structural)]
pub struct ScrollState {
    pub scroll_offset: usize,
    pub auto_scroll: bool,
    pub visible_rows: usize,
    pub max_scroll_rows: usize,
    pub chat_width: usize,
}

impl ScrollState {
    /// The offset does not pass its bound.
    pub open spec fn clamped(self) -> bool {
        self.scroll_offset <= self.max_scroll_rows
    }
}

/// All that the render loop owns.
#[derive(Debug, Clone)]
pub struct AppState {
    pub title: String,
    pub messages: VecDeque<ChatMessage>,
    pub scroll_state: ScrollState,
    pub stats: StatsMessage,
    pub status: StatusEvent,
    pub error: Option<String>,
}

/// `a - b`, and 0 where `b` is the larger.
pub open spec fn floor_sub(a: nat, b: nat) -> nat {
    if a > b {
        (a - b) as nat
    } else {
        0
    }
}

/// The smaller of an offset and its bound.
pub open spec fn clamp_to(offset: nat, bound: usize) -> usize {
    if offset < bound {
        offset as usize
    } else {
        bound
    }
}

/// The newest `capacity` entries of a log, in their order.
pub open spec fn keep_last(log: Seq<ChatMessage>, capacity: nat) -> Seq<ChatMessage> {
    if log.len() > capacity {
        log.subrange(log.len() - capacity, log.len() as int)
    } else {
        log
    }
}

/// The entries of a log that do not fit in `capacity`: its oldest.
pub open spec fn overflow_of(log: Seq<ChatMessage>, capacity: nat) -> Seq<ChatMessage> {
    if log.len() > capacity {
        log.subrange(0, log.len() - capacity)
    } else {
        Seq::empty()
    }
}

/// A log after one more message: the message at its tail, and the oldest
/// entries gone as far as the capacity asks.
pub open spec fn log_after_push(log: Seq<ChatMessage>, msg: ChatMessage, capacity: nat) -> Seq<
    ChatMessage,
> {
    keep_last(log.push(msg), capacity)
}

/// The rows of a page: the height of the viewport, and one at least.
pub open spec fn page_rows(s: ScrollState) -> nat {
    if s.visible_rows >= 1 {
        s.visible_rows as nat
    } else {
        1
    }
}

/// The scroll state after a key that does not quit.
///
/// Up and PageUp move away from the bottom and end following; Down and
/// PageDown move towards it and follow again once they arrive; Home jumps to
/// the top, End to the bottom. Whatever the key, the offset stays within its
/// bound.
pub open spec fn scroll_after_key(s: ScrollState, code: KeyCode) -> ScrollState {
    match code {
        KeyCode::Up => ScrollState {
            scroll_offset: clamp_to(s.scroll_offset as nat + 1, s.max_scroll_rows),
            auto_scroll: false,
            ..s
        },
        KeyCode::Down => ScrollState {
            scroll_offset: clamp_to(floor_sub(s.scroll_offset as nat, 1), s.max_scroll_rows),
            auto_scroll: s.scroll_offset <= 1,
            ..s
        },
        KeyCode::PageUp => ScrollState {
            scroll_offset: clamp_to(s.scroll_offset as nat + page_rows(s), s.max_scroll_rows),
            auto_scroll: false,
            ..s
        },
        KeyCode::PageDown => ScrollState {
            scroll_offset: clamp_to(
                floor_sub(s.scroll_offset as nat, page_rows(s)),
                s.max_scroll_rows,
            ),
            auto_scroll: s.scroll_offset <= page_rows(s),
            ..s
        },
        KeyCode::Home => ScrollState { scroll_offset: s.max_scroll_rows, auto_scroll: false, ..s },
        KeyCode::End => ScrollState { scroll_offset: 0, auto_scroll: true, ..s },
        _ => ScrollState { scroll_offset: clamp_to(s.scroll_offset as nat, s.max_scroll_rows), ..s },
    }
}

/// The scroll state after the oldest message, `rows` rows high, has left the
/// log: the offset is that many rows less, and 0 at least.
pub open spec fn scroll_after_eviction(s: ScrollState, rows: nat) -> ScrollState {
    ScrollState { scroll_offset: floor_sub(s.scroll_offset as nat, rows) as usize, ..s }
}

/// The scroll state after new metrics: the height and the bound are taken
/// over, and the offset is brought within the bound.
pub open spec fn scroll_after_metrics(
    s: ScrollState,
    visible_rows: usize,
    max_scroll_rows: usize,
) -> ScrollState {
    ScrollState {
        scroll_offset: clamp_to(s.scroll_offset as nat, max_scroll_rows),
        visible_rows,
        max_scroll_rows,
        ..s
    }
}

/// The scroll state after `msg` was pushed to `log`.
///
/// While following, the offset stays 0. Else it grows by the rows of the new
/// message and shrinks by the rows of what was evicted, to 0 at least. The
/// bound is that of the new log in the viewport as last known, and the
/// offset stays within it.
pub open spec fn scroll_after_push(s: ScrollState, log: Seq<ChatMessage>, msg: ChatMessage) -> ScrollState {
    let pushed = log.push(msg);
    let grown: nat = if s.auto_scroll {
        0
    } else {
        capped(s.scroll_offset as nat + message_row_count(msg@, s.chat_width)) as nat
    };
    let gone = total_rows(overflow_of(pushed, MAX_MESSAGES as nat), s.chat_width);
    let bound = max_scroll(
        capped(total_rows(keep_last(pushed, MAX_MESSAGES as nat), s.chat_width)) as nat,
        s.visible_rows as nat,
    ) as usize;
    ScrollState { scroll_offset: clamp_to(floor_sub(grown, gone), bound), max_scroll_rows: bound, ..s }
}

impl AppState {
    /// The state of a viewer that has seen nothing yet: an empty log, the
    /// view following at the bottom of a viewport one row high.
    pub fn new(title: String) -> (state: AppState)
        ensures
            state.title == title,
            state.messages@ == Seq::<ChatMessage>::empty(),
            state.scroll_state == (ScrollState {
                scroll_offset: 0,
                auto_scroll: true,
                visible_rows: 1,
                max_scroll_rows: 0,
                chat_width: 0,
            }),
            state.stats == (StatsMessage { viewer_count: 0 }),
            state.status == StatusEvent::Connecting,
            state.error is None,
    {
        AppState {
            title,
            messages: VecDeque::new(),
            scroll_state: ScrollState {
                scroll_offset: 0,
                auto_scroll: true,
                visible_rows: 1,
                max_scroll_rows: 0,
                chat_width: 0,
            },
            stats: StatsMessage { viewer_count: 0 },
            status: StatusEvent::Connecting,
            error: None,
        }
    }

    /// All but the log and the scroll state are as in `before`.
    pub open spec fn same_frame(self, before: AppState) -> bool {
        &&& self.title == before.title
        &&& self.stats == before.stats
        &&& self.status == before.status
        &&& self.error == before.error
    }

    /// Takes the oldest message out of the log, if there is one, and moves
    /// the offset down by its rows.
    pub fn evict_oldest(&mut self) -> (evicted: Option<ChatMessage>)
        ensures
            final(self).same_frame(*old(self)),
            old(self).messages@.len() == 0 ==> {
                &&& evicted is None
                &&& final(self).messages@ == old(self).messages@
                &&& final(self).scroll_state == old(self).scroll_state
            },
            old(self).messages@.len() > 0 ==> {
                &&& evicted == Some(old(self).messages@[0])
                &&& final(self).messages@ == old(self).messages@.drop_first()
                &&& final(self).scroll_state == scroll_after_eviction(
                    old(self).scroll_state,
                    message_row_count(old(self).messages@[0]@, old(self).scroll_state.chat_width),
                )
            },
    {
        match self.messages.pop_front() {
            Some(oldest) => {
                let rows = row_count_for_message(&oldest, self.scroll_state.chat_width);
                self.scroll_state.scroll_offset = self.scroll_state.scroll_offset.saturating_sub(
                    rows,
                );
                Some(oldest)
            },
            None => None,
        }
    }

    /// Appends a message to the log and keeps the view where the reader has
    /// it.
    pub fn push_message(&mut self, msg: ChatMessage)
        ensures
            final(self).same_frame(*old(self)),
            final(self).messages@ == log_after_push(old(self).messages@, msg, MAX_MESSAGES as nat),
            final(self).messages@.len() <= MAX_MESSAGES,
            final(self).scroll_state == scroll_after_push(
                old(self).scroll_state,
                old(self).messages@,
                msg,
            ),
            final(self).scroll_state.clamped(),
    {
        let width = self.scroll_state.chat_width;
        let ghost start = self.scroll_state;
        let ghost pushed = self.messages@.push(msg);
        if !self.scroll_state.auto_scroll {
            let added = row_count_for_message(&msg, width);
            self.scroll_state.scroll_offset = self.scroll_state.scroll_offset.saturating_add(added);
        }
        self.messages.push_back(msg);
        if self.scroll_state.auto_scroll {
            self.scroll_state.scroll_offset = 0;
        }
        let ghost grown = self.scroll_state.scroll_offset as nat;
        let ghost mut gone: nat = 0;
        proof {
            assert(pushed.subrange(0, 0) =~= Seq::<ChatMessage>::empty());
            assert(pushed.subrange(0, pushed.len() as int) =~= pushed);
        }
        while self.messages.len() > MAX_MESSAGES
            invariant
                self.same_frame(*old(self)),
                gone <= pushed.len(),
                gone == 0 || pushed.len() - gone >= MAX_MESSAGES,
                self.messages@ == pushed.subrange(gone as int, pushed.len() as int),
                self.scroll_state == (ScrollState {
                    scroll_offset: floor_sub(
                        grown,
                        total_rows(pushed.subrange(0, gone as int), width),
                    ) as usize,
                    ..start
                }),
                width == start.chat_width,
                grown <= usize::MAX,
            decreases self.messages@.len(),
        {
            proof {
                assert(pushed.subrange(0, gone as int + 1) =~= pushed.subrange(0, gone as int).push(
                    pushed[gone as int],
                ));
                lemma_total_rows_push(pushed.subrange(0, gone as int), pushed[gone as int], width);
                assert(pushed.subrange(gone as int, pushed.len() as int).subrange(
                    1,
                    pushed.len() - gone,
                ) =~= pushed.subrange(gone as int + 1, pushed.len() as int));
            }
            let _ = self.evict_oldest();
            proof {
                gone = gone + 1;
            }
        }
        proof {
            assert(self.messages@ =~= keep_last(pushed, MAX_MESSAGES as nat));
            assert(pushed.subrange(0, gone as int) =~= overflow_of(pushed, MAX_MESSAGES as nat));
        }
        let visible_rows = self.scroll_state.visible_rows;
        let bound = max_scroll_for_viewport(self, width, visible_rows);
        self.update_scroll_metrics(visible_rows, bound);
    }

    /// Moves the view `amount` rows away from the bottom.
    fn scroll_up(&mut self, amount: usize)
        ensures
            final(self).same_frame(*old(self)),
            final(self).messages == old(self).messages,
            final(self).scroll_state == (ScrollState {
                scroll_offset: capped(old(self).scroll_state.scroll_offset as nat + amount as nat),
                ..old(self).scroll_state
            }),
    {
        self.scroll_state.scroll_offset = self.scroll_state.scroll_offset.saturating_add(amount);
    }

    /// Moves the view `amount` rows towards the bottom.
    fn scroll_down(&mut self, amount: usize)
        ensures
            final(self).same_frame(*old(self)),
            final(self).messages == old(self).messages,
            final(self).scroll_state == (ScrollState {
                scroll_offset: floor_sub(
                    old(self).scroll_state.scroll_offset as nat,
                    amount as nat,
                ) as usize,
                ..old(self).scroll_state
            }),
    {
        self.scroll_state.scroll_offset = self.scroll_state.scroll_offset.saturating_sub(amount);
    }

    /// Takes over the height of the viewport and the bound on the offset,
    /// and brings the offset within the bound.
    pub fn update_scroll_metrics(&mut self, visible_rows: usize, max_scroll_rows: usize)
        ensures
            final(self).same_frame(*old(self)),
            final(self).messages == old(self).messages,
            final(self).scroll_state == scroll_after_metrics(
                old(self).scroll_state,
                visible_rows,
                max_scroll_rows,
            ),
            final(self).scroll_state.clamped(),
    {
        self.scroll_state.visible_rows = visible_rows;
        self.scroll_state.max_scroll_rows = max_scroll_rows;
        if self.scroll_state.scroll_offset > self.scroll_state.max_scroll_rows {
            self.scroll_state.scroll_offset = self.scroll_state.max_scroll_rows;
        }
    }

    /// Takes over the size of the viewport, computes the bound on the offset
    /// from the rows of the log at that width, and brings the offset within
    /// it.
    pub fn update_viewport(&mut self, chat_width: usize, visible_rows: usize)
        ensures
            final(self).same_frame(*old(self)),
            final(self).messages == old(self).messages,
            final(self).scroll_state == scroll_after_metrics(
                ScrollState { chat_width, ..old(self).scroll_state },
                visible_rows,
                max_scroll(
                    capped(total_rows(old(self).messages@, chat_width)) as nat,
                    visible_rows as nat,
                ) as usize,
            ),
            final(self).scroll_state.clamped(),
    {
        self.scroll_state.chat_width = chat_width;
        let bound = max_scroll_for_viewport(self, chat_width, visible_rows);
        self.update_scroll_metrics(visible_rows, bound);
    }

    /// Applies a key to the view. Says whether the key ends the viewer; such
    /// a key changes nothing.
    pub fn handle_key(&mut self, key: KeyEvent) -> (quit: bool)
        ensures
            quit == is_quit_key(key),
            final(self).same_frame(*old(self)),
            final(self).messages == old(self).messages,
            quit ==> final(self).scroll_state == old(self).scroll_state,
            !quit ==> final(self).scroll_state == scroll_after_key(old(self).scroll_state, key.code),
            !quit ==> final(self).scroll_state.clamped(),
            key.code == KeyCode::End ==> final(self).scroll_state.scroll_offset == 0,
            key.code == KeyCode::End ==> final(self).scroll_state.auto_scroll,
    {
        if quits(key) {
            return true;
        }
        let page = if self.scroll_state.visible_rows < 1 {
            1
        } else {
            self.scroll_state.visible_rows
        };
        match key.code {
            KeyCode::Up => {
                self.scroll_up(1);
                self.scroll_state.auto_scroll = false;
            },
            KeyCode::Down => {
                self.scroll_down(1);
                self.scroll_state.auto_scroll = self.scroll_state.scroll_offset == 0;
            },
            KeyCode::PageUp => {
                self.scroll_up(page);
                self.scroll_state.auto_scroll = false;
            },
            KeyCode::PageDown => {
                self.scroll_down(page);
                self.scroll_state.auto_scroll = self.scroll_state.scroll_offset == 0;
            },
            KeyCode::Home => {
                self.scroll_state.scroll_offset = self.scroll_state.max_scroll_rows;
                self.scroll_state.auto_scroll = false;
            },
            KeyCode::End => {
                self.scroll_state.scroll_offset = 0;
                self.scroll_state.auto_scroll = true;
            },
            _ => {},
        }
        if self.scroll_state.scroll_offset > self.scroll_state.max_scroll_rows {
            self.scroll_state.scroll_offset = self.scroll_state.max_scroll_rows;
        }
        false
    }
}

/// The log that `pushes` leave, pushed one after the other to an empty log
/// of the given capacity.
pub open spec fn log_after_pushes(pushes: Seq<ChatMessage>, capacity: nat) -> Seq<ChatMessage>
    decreases pushes.len(),
{
    if pushes.len() == 0 {
        Seq::empty()
    } else {
        log_after_push(log_after_pushes(pushes.drop_last(), capacity), pushes.last(), capacity)
    }
}

/// A push never leaves more than the capacity, and what it leaves ends with
/// the message pushed, where the capacity is not 0.
pub proof fn lemma_push_bounded(log: Seq<ChatMessage>, msg: ChatMessage, capacity: nat)
    ensures
        log_after_push(log, msg, capacity).len() <= capacity,
        log.len() < capacity ==> log_after_push(log, msg, capacity) == log.push(msg),
        capacity > 0 ==> log_after_push(log, msg, capacity).last() == msg,
{
}

/// Log bound: of any number of pushes to an empty log, the log holds as many
/// as were pushed or as the capacity allows, whichever is less, and they are
/// the last that were pushed, in the order in which they were pushed.
pub proof fn lemma_log_bound(pushes: Seq<ChatMessage>, capacity: nat)
    ensures
        log_after_pushes(pushes, capacity) == keep_last(pushes, capacity),
        log_after_pushes(pushes, capacity).len() == if pushes.len() <= capacity {
            pushes.len()
        } else {
            capacity
        },
    decreases pushes.len(),
{
    if pushes.len() > 0 {
        let earlier = pushes.drop_last();
        lemma_log_bound(earlier, capacity);
        assert(pushes =~= earlier.push(pushes.last()));
        assert(keep_last(keep_last(earlier, capacity).push(pushes.last()), capacity) =~= keep_last(
            pushes,
            capacity,
        ));
    }
}

/// Scroll clamp, for keys: whatever the key and the state before, the offset
/// is within its bound afterwards.
pub proof fn lemma_key_clamps(s: ScrollState, code: KeyCode)
    ensures
        scroll_after_key(s, code).clamped(),
{
}

/// Scroll clamp, for pushes: whatever the message, the log and the state
/// before, the offset is within its bound afterwards.
pub proof fn lemma_push_clamps(s: ScrollState, log: Seq<ChatMessage>, msg: ChatMessage)
    ensures
        scroll_after_push(s, log, msg).clamped(),
{
}

/// Auto-follow convergence: End brings the view to the bottom and makes it
/// follow, whatever the state before.
pub proof fn lemma_end_follows(s: ScrollState)
    ensures
        scroll_after_key(s, KeyCode::End).scroll_offset == 0,
        scroll_after_key(s, KeyCode::End).auto_scroll,
{
}

/// From a state whose offset is within its bound, Down and PageDown follow
/// exactly when they arrive at the bottom.
pub proof fn lemma_down_follows_at_bottom(s: ScrollState, code: KeyCode)
    requires
        s.clamped(),
        code == KeyCode::Down || code == KeyCode::PageDown,
    ensures
        scroll_after_key(s, code).auto_scroll == (scroll_after_key(s, code).scroll_offset == 0),
{
}

/// While the view follows, a push leaves it at the bottom.
pub proof fn lemma_push_while_following(s: ScrollState, log: Seq<ChatMessage>, msg: ChatMessage)
    requires
        s.auto_scroll,
    ensures
        scroll_after_push(s, log, msg).scroll_offset == 0,
        scroll_after_push(s, log, msg).auto_scroll,
{
}

/// A push under a paused view does not move what the reader sees: where the
/// viewport is full, the offset is within its bound and nothing is evicted,
/// the window shows the same rows before and after.
pub proof fn lemma_push_keeps_window(s: ScrollState, log: Seq<ChatMessage>, msg: ChatMessage)
    requires
        !s.auto_scroll,
        log.len() < MAX_MESSAGES,
        total_rows(log, s.chat_width) >= s.visible_rows,
        s.scroll_offset <= max_scroll(total_rows(log, s.chat_width), s.visible_rows as nat),
        total_rows(log.push(msg), s.chat_width) <= usize::MAX,
    ensures
        ({
            let before = log_rows(log, s.chat_width);
            let after = log_rows(log.push(msg), s.chat_width);
            let next = scroll_after_push(s, log, msg);
            let start = window_start(before.len(), s.visible_rows as nat, s.scroll_offset as nat);
            let end = window_end(before.len(), s.visible_rows as nat, s.scroll_offset as nat);
            &&& next.scroll_offset == s.scroll_offset + message_row_count(msg@, s.chat_width)
            &&& window_start(after.len(), next.visible_rows as nat, next.scroll_offset as nat)
                == start
            &&& window_end(after.len(), next.visible_rows as nat, next.scroll_offset as nat) == end
            &&& after.subrange(start as int, end as int) == before.subrange(start as int, end as int)
        }),
{
    lemma_total_rows_push(log, msg, s.chat_width);
    let before = log_rows(log, s.chat_width);
    let after = log_rows(log.push(msg), s.chat_width);
    let start = window_start(before.len(), s.visible_rows as nat, s.scroll_offset as nat);
    let end = window_end(before.len(), s.visible_rows as nat, s.scroll_offset as nat);
    assert(keep_last(log.push(msg), MAX_MESSAGES as nat) == log.push(msg));
    assert(overflow_of(log.push(msg), MAX_MESSAGES as nat) == Seq::<ChatMessage>::empty());
    assert(after.subrange(start as int, end as int) =~= before.subrange(start as int, end as int));
}

} // verus!
