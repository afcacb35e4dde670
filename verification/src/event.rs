//! The vocabulary shared by the producers and the render loop.

use vstd::prelude::*;

verus! {

/// How a chat message is rendered.
#[derive(Debug, Clone, Copy, PartialEq, Eq, Structural)]
pub enum MessageKind {
    Text,
    Subscription,
}

/// One entry of the chat feed. It is not changed after it was made.
#[derive(Debug, Clone)]
pub struct ChatMessage {
    pub timestamp: String,
    pub author: String,
    pub message: String,
    pub kind: MessageKind,
}

/// What a `ChatMessage` says, as sequences of characters.
pub struct ChatMessageView {
    pub timestamp: Seq<char>,
    pub author: Seq<char>,
    pub message: Seq<char>,
    pub kind: MessageKind,
}

impl View for ChatMessage {
    type V = ChatMessageView;

    open spec fn view(&self) -> ChatMessageView {
        ChatMessageView {
            timestamp: self.timestamp@,
            author: self.author@,
            message: self.message@,
            kind: self.kind,
        }
    }
}

impl DeepView for ChatMessage {
    type V = ChatMessageView;

    open spec fn deep_view(&self) -> ChatMessageView {
        self@
    }
}

/// Connectivity of the chat feed.
#[derive(Debug, Clone, Copy, PartialEq, Eq, Structural)]
pub enum StatusEvent {
    Connecting,
    Connected,
    Disconnected,
}

/// The newest known number of viewers.
#[derive(Debug, Clone, Copy, PartialEq, Eq, Structural)]
pub struct StatsMessage {
    pub viewer_count: u32,
}

/// The key of a key event, as far as the viewer tells keys apart.
#[derive(Debug, Clone, Copy, PartialEq, Eq, Structural)]
pub enum KeyCode {
    Up,
    Down,
    PageUp,
    PageDown,
    Home,
    End,
    Esc,
    Char(char),
    Other,
}

/// Whether a key went down, is held, or came up.
#[derive(Debug, Clone, Copy, PartialEq, Eq, Structural)]
pub enum KeyEventKind {
    Press,
    Repeat,
    Release,
}

/// One event of the keyboard.
#[derive(Debug, Clone, Copy, PartialEq, Eq, Structural)]
pub struct KeyEvent {
    pub code: KeyCode,
    /// Whether Control was held.
    pub ctrl: bool,
    pub kind: KeyEventKind,
}

/// What flows through the bus, from the producers to the render loop.
#[derive(Debug, Clone)]
pub enum AppEvent {
    Input(KeyEvent),
    Chat(ChatMessage),
    StatsUpdate(StatsMessage),
    Status(StatusEvent),
    Error(String),
    Quit,
}

/// What an `AppEvent` holds, as sequences of characters.
pub enum AppEventView {
    Input(KeyEvent),
    Chat(ChatMessageView),
    StatsUpdate(StatsMessage),
    Status(StatusEvent),
    Error(Seq<char>),
    Quit,
}

impl View for AppEvent {
    type V = AppEventView;

    open spec fn view(&self) -> AppEventView {
        match *self {
            AppEvent::Input(key) => AppEventView::Input(key),
            AppEvent::Chat(message) => AppEventView::Chat(message@),
            AppEvent::StatsUpdate(stats) => AppEventView::StatsUpdate(stats),
            AppEvent::Status(status) => AppEventView::Status(status),
            AppEvent::Error(error) => AppEventView::Error(error@),
            AppEvent::Quit => AppEventView::Quit,
        }
    }
}

impl DeepView for AppEvent {
    type V = AppEventView;

    open spec fn deep_view(&self) -> AppEventView {
        self@
    }
}

/// How many events the bus holds before a producer has to wait.
pub const EVENT_BUS_CAPACITY: usize = 100;

/// The keys that end the viewer: Esc, `q`, and `c` with Control.
pub open spec fn is_quit_key(key: KeyEvent) -> bool {
    ||| key.code == KeyCode::Esc
    ||| key.code == KeyCode::Char('q')
    ||| (key.code == KeyCode::Char('c') && key.ctrl)
}

/// Whether a key ends the viewer.
pub fn quits(key: KeyEvent) -> (quit: bool)
    ensures
        quit == is_quit_key(key),
{
    match key.code {
        KeyCode::Esc => true,
        KeyCode::Char(c) => c == 'q' || (c == 'c' && key.ctrl),
        _ => false,
    }
}

/// The event that the input task sends for a key event: one for each press,
/// none where a key is held or released.
pub fn input_event(key: KeyEvent) -> (event: Option<AppEvent>)
    ensures
        key.kind == KeyEventKind::Press ==> event == Some(AppEvent::Input(key)),
        key.kind != KeyEventKind::Press ==> event is None,
{
    match key.kind {
        KeyEventKind::Press => Some(AppEvent::Input(key)),
        _ => None,
    }
}

} // verus!
