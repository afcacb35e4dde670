//! The render loop's side of the bus: one event at a time is applied to the
//! state, and the viewport is measured again after each.

use crate::event::{is_quit_key, AppEvent, ChatMessage, StatsMessage, StatusEvent};
use crate::state::{
    log_after_push, scroll_after_key, scroll_after_metrics, scroll_after_push, AppState,
    ScrollState, MAX_MESSAGES,
};
use crate::ui::{capped, max_scroll, total_rows};
use vstd::prelude::*;

verus! {

/// Columns of the terminal that the border of the chat pane takes.
pub const BORDER_COLUMNS: u16 = 2;

/// Rows of the terminal that the border of the chat pane takes.
pub const BORDER_ROWS: u16 = 2;

/// Rows of the terminal that the border of the chat pane and the help line
/// take.
pub const CHROME_ROWS: u16 = 3;

/// The width of the chat pane in a terminal `width` columns wide.
pub open spec fn chat_width_of(width: u16) -> usize {
    if width > BORDER_COLUMNS {
        (width - BORDER_COLUMNS) as usize
    } else {
        0
    }
}

/// The height of the chat pane in a terminal `height` rows high.
pub open spec fn visible_rows_of(height: u16) -> usize {
    if height > CHROME_ROWS {
        (height - CHROME_ROWS) as usize
    } else {
        0
    }
}

/// The height of the inside of a chat pane `pane_height` rows high.
pub open spec fn pane_rows_of(pane_height: u16) -> usize {
    if pane_height > BORDER_ROWS {
        (pane_height - BORDER_ROWS) as usize
    } else {
        0
    }
}

/// The width and the height of the inside of a chat pane: what its border
/// leaves.
pub fn pane_viewport(pane_width: u16, pane_height: u16) -> (inside: (usize, usize))
    ensures
        inside.0 == chat_width_of(pane_width),
        inside.1 == pane_rows_of(pane_height),
{
    (
        pane_width.saturating_sub(BORDER_COLUMNS) as usize,
        pane_height.saturating_sub(BORDER_ROWS) as usize,
    )
}

/// Whether an event ends the render loop: a quit, or a key that quits.
pub open spec fn event_quits(event: AppEvent) -> bool {
    match event {
        AppEvent::Quit => true,
        AppEvent::Input(key) => is_quit_key(key),
        _ => false,
    }
}

/// What an event does to the state.
///
/// A chat message is pushed to the log. A key moves the view, unless it
/// quits. Statistics, status and error each replace what was known before.
/// A quit changes nothing.
pub open spec fn event_applied(before: AppState, event: AppEvent, after: AppState) -> bool {
    match event {
        AppEvent::Chat(msg) => {
            &&& after.same_frame(before)
            &&& after.messages@ == log_after_push(before.messages@, msg, MAX_MESSAGES as nat)
            &&& after.scroll_state == scroll_after_push(before.scroll_state, before.messages@, msg)
        },
        AppEvent::Input(key) => {
            &&& after.same_frame(before)
            &&& after.messages == before.messages
            &&& after.scroll_state == if is_quit_key(key) {
                before.scroll_state
            } else {
                scroll_after_key(before.scroll_state, key.code)
            }
        },
        AppEvent::StatsUpdate(stats) => after == (AppState { stats, ..before }),
        AppEvent::Status(status) => after == (AppState { status, ..before }),
        AppEvent::Error(error) => after == (AppState { error: Some(error), ..before }),
        AppEvent::Quit => after == before,
    }
}

/// The consumer of the bus and the one owner of the state.
#[derive(Debug, Clone)]
pub struct App {
    pub state: AppState,
}

impl App {
    /// A viewer that has seen nothing yet: an empty log, the view following
    /// at the bottom of a viewport one row high.
    pub fn new(title: String) -> (app: App)
        ensures
            app.state.title == title,
            app.state.messages@ == Seq::<ChatMessage>::empty(),
            app.state.scroll_state == (ScrollState {
                scroll_offset: 0,
                auto_scroll: true,
                visible_rows: 1,
                max_scroll_rows: 0,
                chat_width: 0,
            }),
            app.state.stats == (StatsMessage { viewer_count: 0 }),
            app.state.status == StatusEvent::Connecting,
            app.state.error is None,
    {
        App { state: AppState::new(title) }
    }

    /// Applies one event to the state. Says whether the loop ends.
    pub fn on_event(&mut self, event: AppEvent) -> (quit: bool)
        ensures
            quit == event_quits(event),
            event_applied(old(self).state, event, final(self).state),
            old(self).state.scroll_state.clamped() ==> final(self).state.scroll_state.clamped(),
    {
        match event {
            AppEvent::Chat(msg) => {
                self.state.push_message(msg);
                false
            },
            AppEvent::Input(key) => self.state.handle_key(key),
            AppEvent::StatsUpdate(stats) => {
                self.state.stats = stats;
                false
            },
            AppEvent::Status(status) => {
                self.state.status = status;
                false
            },
            AppEvent::Error(error) => {
                self.state.error = Some(error);
                false
            },
            AppEvent::Quit => true,
        }
    }

    /// Takes what the bus gave: an event, or `None` once the bus is closed
    /// and empty, which ends the loop and changes nothing.
    pub fn on_receive(&mut self, received: Option<AppEvent>) -> (quit: bool)
        ensures
            match received {
                Some(event) => quit == event_quits(event) && event_applied(
                    old(self).state,
                    event,
                    final(self).state,
                ),
                None => quit && final(self).state == old(self).state,
            },
            old(self).state.scroll_state.clamped() ==> final(self).state.scroll_state.clamped(),
    {
        match received {
            Some(event) => self.on_event(event),
            None => true,
        }
    }

    /// Measures the viewport in a terminal of `width` columns and `height`
    /// rows, and brings the scroll state up to it.
    pub fn resize(&mut self, width: u16, height: u16)
        ensures
            final(self).state.same_frame(old(self).state),
            final(self).state.messages == old(self).state.messages,
            final(self).state.scroll_state == scroll_after_metrics(
                ScrollState { chat_width: chat_width_of(width), ..old(self).state.scroll_state },
                visible_rows_of(height),
                max_scroll(
                    capped(total_rows(old(self).state.messages@, chat_width_of(width))) as nat,
                    visible_rows_of(height) as nat,
                ) as usize,
            ),
            final(self).state.scroll_state.clamped(),
    {
        let visible_rows = height.saturating_sub(CHROME_ROWS) as usize;
        let chat_width = width.saturating_sub(BORDER_COLUMNS) as usize;
        self.state.update_viewport(chat_width, visible_rows);
    }
}

/// The log and the scroll state after an event: what `event_applied` says of
/// these two.
pub open spec fn view_after_event(log: Seq<ChatMessage>, s: ScrollState, event: AppEvent) -> (
    Seq<ChatMessage>,
    ScrollState,
) {
    match event {
        AppEvent::Chat(msg) => (
            log_after_push(log, msg, MAX_MESSAGES as nat),
            scroll_after_push(s, log, msg),
        ),
        AppEvent::Input(key) => (
            log,
            if is_quit_key(key) {
                s
            } else {
                scroll_after_key(s, key.code)
            },
        ),
        _ => (log, s),
    }
}

/// The log and the scroll state after a run of events, taken in order.
pub open spec fn view_after_events(log: Seq<ChatMessage>, s: ScrollState, events: Seq<AppEvent>) -> (
    Seq<ChatMessage>,
    ScrollState,
)
    decreases events.len(),
{
    if events.len() == 0 {
        (log, s)
    } else {
        let earlier = view_after_events(log, s, events.drop_last());
        view_after_event(earlier.0, earlier.1, events.last())
    }
}

/// What `on_event` does to the log and the scroll state is what
/// `view_after_event` computes.
pub proof fn lemma_event_view(before: AppState, event: AppEvent, after: AppState)
    requires
        event_applied(before, event, after),
    ensures
        (after.messages@, after.scroll_state) == view_after_event(
            before.messages@,
            before.scroll_state,
            event,
        ),
{
}

/// Scroll clamp: from a state whose offset is within its bound, the offset
/// is within its bound after any run of events, whatever keys and messages
/// it brings.
pub proof fn lemma_scroll_clamp(log: Seq<ChatMessage>, s: ScrollState, events: Seq<AppEvent>)
    requires
        s.clamped(),
    ensures
        view_after_events(log, s, events).1.clamped(),
    decreases events.len(),
{
    if events.len() > 0 {
        lemma_scroll_clamp(log, s, events.drop_last());
    }
}

/// A log within the capacity stays within it through any run of events.
pub proof fn lemma_log_stays_bounded(log: Seq<ChatMessage>, s: ScrollState, events: Seq<AppEvent>)
    requires
        log.len() <= MAX_MESSAGES,
    ensures
        view_after_events(log, s, events).0.len() <= MAX_MESSAGES,
    decreases events.len(),
{
    if events.len() > 0 {
        lemma_log_stays_bounded(log, s, events.drop_last());
    }
}

} // verus!
