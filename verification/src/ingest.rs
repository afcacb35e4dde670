//! The chat feed: pages of remote items, their translation into chat
//! messages, and the pagination protocol that keeps the feed going.

use crate::event::{
    AppEvent, AppEventView, ChatMessage, ChatMessageView, MessageKind, StatusEvent,
};
use vstd::prelude::*;
use vstd::string::*;
use vstd::utf8::*;

verus! {

/// The type that the remote side declares for an item.
#[derive(Debug, Clone, Copy, PartialEq, Eq, Structural)]
pub enum ItemType {
    TextMessage,
    NewSubscriber,
    Other,
}

/// One decoded item of a page. A field that the remote side left out is `None`.
#[derive(Debug, Clone)]
pub struct RemoteItem {
    pub item_type: ItemType,
    pub author: Option<String>,
    pub body: Option<String>,
    pub published_at: Option<String>,
}

/// One decoded page of the feed.
#[derive(Debug, Clone)]
pub struct ChatPage {
    pub items: Vec<RemoteItem>,
    pub next_page_token: Option<String>,
}

/// The characters of an optional string.
pub open spec fn text_of(s: Option<String>) -> Option<Seq<char>> {
    match s {
        Some(t) => Some(t@),
        None => None,
    }
}

/// Byte offset at which the hour starts in an RFC 3339 time.
pub const MINUTE_START: usize = 11;

/// Byte offset just behind the minute in an RFC 3339 time.
pub const MINUTE_END: usize = 16;

/// The hour and minute of a publication time: the bytes from `MINUTE_START`
/// to `MINUTE_END` of its UTF-8 form, where both offsets fall between
/// characters.
pub open spec fn minute_of(published_at: Seq<char>) -> Option<Seq<char>> {
    let bytes = encode_utf8(published_at);
    if is_char_boundary(bytes, MINUTE_START as int) && is_char_boundary(bytes, MINUTE_END as int) {
        Some(decode_utf8(bytes.subrange(MINUTE_START as int, MINUTE_END as int)))
    } else {
        None
    }
}

/// Cuts the hour and minute out of a publication time.
pub fn minute_slice(published_at: &str) -> (minute: Option<String>)
    ensures
        text_of(minute) == minute_of(published_at@),
{
    if published_at.is_char_boundary(MINUTE_START) && published_at.is_char_boundary(MINUTE_END) {
        let (head, _) = published_at.split_at(MINUTE_END);
        proof {
            let bytes = published_at.spec_bytes();
            encode_utf8_valid_utf8(published_at@);
            encode_utf8_valid_utf8(head@);
            assert(bytes.len() >= MINUTE_END);
            is_char_boundary_iff_not_is_continuation_byte(bytes, MINUTE_START as int);
            is_char_boundary_iff_not_is_continuation_byte(head.spec_bytes(), MINUTE_START as int);
        }
        let (_, minute) = head.split_at(MINUTE_START);
        proof {
            encode_utf8_decode_utf8(minute@);
            assert(minute.spec_bytes() =~= published_at.spec_bytes().subrange(
                MINUTE_START as int,
                MINUTE_END as int,
            ));
        }
        Some(String::from_str(minute))
    } else {
        None
    }
}

/// What a `RemoteItem` holds, as sequences of characters.
pub struct RemoteItemView {
    pub item_type: ItemType,
    pub author: Option<Seq<char>>,
    pub body: Option<Seq<char>>,
    pub published_at: Option<Seq<char>>,
}

impl View for RemoteItem {
    type V = RemoteItemView;

    open spec fn view(&self) -> RemoteItemView {
        RemoteItemView {
            item_type: self.item_type,
            author: text_of(self.author),
            body: text_of(self.body),
            published_at: text_of(self.published_at),
        }
    }
}

impl DeepView for RemoteItem {
    type V = RemoteItemView;

    open spec fn deep_view(&self) -> RemoteItemView {
        self@
    }
}

/// What a `ChatPage` holds, as sequences.
pub struct ChatPageView {
    pub items: Seq<RemoteItemView>,
    pub next_page_token: Option<Seq<char>>,
}

impl View for ChatPage {
    type V = ChatPageView;

    open spec fn view(&self) -> ChatPageView {
        ChatPageView {
            items: self.items.deep_view(),
            next_page_token: text_of(self.next_page_token),
        }
    }
}

/// The time shown for an item: its hour and minute, or `--:--` where the
/// publication time is missing or too short.
pub open spec fn shown_time(published_at: Option<Seq<char>>) -> Seq<char> {
    match published_at {
        Some(t) => match minute_of(t) {
            Some(m) => m,
            None => "--:--"@,
        },
        None => "--:--"@,
    }
}

/// The author shown for an item: its display name, or `<unknown>`.
pub open spec fn shown_author(author: Option<Seq<char>>) -> Seq<char> {
    match author {
        Some(a) => a,
        None => "<unknown>"@,
    }
}

/// The body shown for an item: its display text, or `<empty>`.
pub open spec fn shown_body(body: Option<Seq<char>>) -> Seq<char> {
    match body {
        Some(b) => b,
        None => "<empty>"@,
    }
}

/// The chat message that an item becomes. Text messages and new subscribers
/// are kept, with placeholders for what is missing; any other item is passed
/// over.
pub open spec fn item_message(item: RemoteItemView) -> Option<ChatMessageView> {
    match item.item_type {
        ItemType::Other => None,
        ItemType::TextMessage => Some(
            ChatMessageView {
                timestamp: shown_time(item.published_at),
                author: shown_author(item.author),
                message: shown_body(item.body),
                kind: MessageKind::Text,
            },
        ),
        ItemType::NewSubscriber => Some(
            ChatMessageView {
                timestamp: shown_time(item.published_at),
                author: shown_author(item.author),
                message: shown_body(item.body),
                kind: MessageKind::Subscription,
            },
        ),
    }
}

/// The chat messages of a run of items: those of each item that is kept, in
/// the order of the items, none left out and none repeated.
pub open spec fn feed_messages(items: Seq<RemoteItemView>) -> Seq<ChatMessageView>
    decreases items.len(),
{
    if items.len() == 0 {
        Seq::empty()
    } else {
        let before = feed_messages(items.drop_last());
        match item_message(items.last()) {
            Some(m) => before.push(m),
            None => before,
        }
    }
}

/// The time to show for an item.
pub fn display_time(published_at: &Option<String>) -> (shown: String)
    ensures
        shown@ == shown_time(text_of(*published_at)),
{
    match published_at {
        Some(t) => match minute_slice(t.as_str()) {
            Some(m) => m,
            None => String::from_str("--:--"),
        },
        None => String::from_str("--:--"),
    }
}

/// The author to show for an item.
pub fn display_author(author: &Option<String>) -> (shown: String)
    ensures
        shown@ == shown_author(text_of(*author)),
{
    match author {
        Some(a) => a.clone(),
        None => String::from_str("<unknown>"),
    }
}

/// The body to show for an item.
pub fn display_body(body: &Option<String>) -> (shown: String)
    ensures
        shown@ == shown_body(text_of(*body)),
{
    match body {
        Some(b) => b.clone(),
        None => String::from_str("<empty>"),
    }
}

/// Translates one item of a page. `None` means that the item is passed over.
pub fn message_from_item(item: &RemoteItem) -> (message: Option<ChatMessage>)
    ensures
        match message {
            Some(m) => item_message(item@) == Some(m@),
            None => item_message(item@) is None,
        },
{
    let kind = match item.item_type {
        ItemType::TextMessage => MessageKind::Text,
        ItemType::NewSubscriber => MessageKind::Subscription,
        ItemType::Other => {
            return None;
        },
    };
    Some(
        ChatMessage {
            timestamp: display_time(&item.published_at),
            author: display_author(&item.author),
            message: display_body(&item.body),
            kind,
        },
    )
}

/// Translates the items of a page, in their order.
pub fn page_messages(page: &ChatPage) -> (messages: Vec<ChatMessage>)
    ensures
        messages.deep_view() == feed_messages(page@.items),
{
    let mut messages: Vec<ChatMessage> = Vec::new();
    let mut i: usize = 0;
    proof {
        assert(page@.items.subrange(0, 0) =~= Seq::<RemoteItemView>::empty());
        assert(messages.deep_view() =~= Seq::<ChatMessageView>::empty());
    }
    while i < page.items.len()
        invariant
            i <= page.items.len(),
            messages.deep_view() == feed_messages(page@.items.subrange(0, i as int)),
        decreases page.items.len() - i,
    {
        let ghost before = messages.deep_view();
        let produced = message_from_item(&page.items[i]);
        proof {
            let upto = page@.items.subrange(0, i as int + 1);
            assert(upto.drop_last() =~= page@.items.subrange(0, i as int));
            assert(upto.last() == page.items[i as int]@);
        }
        match produced {
            Some(m) => {
                messages.push(m);
                proof {
                    assert(messages.deep_view() =~= before.push(m@));
                }
            },
            None => {},
        }
        i += 1;
    }
    proof {
        assert(page@.items.subrange(0, i as int) =~= page@.items);
    }
    messages
}

/// How many items one request asks for.
pub const MAX_RESULTS: u32 = 20;

/// One "list next page" request to the remote side.
#[derive(Debug, Clone)]
pub struct ListRequest {
    pub live_chat_id: String,
    pub max_results: u32,
    pub page_token: Option<String>,
    pub locale: String,
}

/// What a `ListRequest` holds, as sequences of characters.
pub struct ListRequestView {
    pub live_chat_id: Seq<char>,
    pub max_results: u32,
    pub page_token: Option<Seq<char>>,
    pub locale: Seq<char>,
}

impl View for ListRequest {
    type V = ListRequestView;

    open spec fn view(&self) -> ListRequestView {
        ListRequestView {
            live_chat_id: self.live_chat_id@,
            max_results: self.max_results,
            page_token: text_of(self.page_token),
            locale: self.locale@,
        }
    }
}

/// The request that continues a chat from a cursor; no cursor asks for the
/// start of the feed.
pub open spec fn list_request(live_chat_id: Seq<char>, cursor: Option<Seq<char>>) -> ListRequestView {
    ListRequestView {
        live_chat_id,
        max_results: MAX_RESULTS,
        page_token: cursor,
        locale: "en"@,
    }
}

/// Where the ingestion task stands.
///
/// `Streaming` holds the cursor that the pages of the open stream have given
/// so far; each new stream starts with none.
#[derive(Debug, Clone)]
pub enum IngestState {
    Connecting,
    Streaming { captured: Option<String> },
    Terminated,
}

/// What an `IngestState` holds, as sequences of characters.
pub enum IngestStateView {
    Connecting,
    Streaming { captured: Option<Seq<char>> },
    Terminated,
}

impl View for IngestState {
    type V = IngestStateView;

    open spec fn view(&self) -> IngestStateView {
        match *self {
            IngestState::Connecting => IngestStateView::Connecting,
            IngestState::Streaming { captured } => IngestStateView::Streaming {
                captured: text_of(captured),
            },
            IngestState::Terminated => IngestStateView::Terminated,
        }
    }
}

/// What came of the last action.
#[derive(Debug, Clone)]
pub enum IngestEvent {
    /// The transport session stands.
    Connected,
    /// The open stream delivered a page.
    Page(ChatPage),
    /// The open stream ended in good order.
    StreamEnded,
    /// The session, the request or the stream failed, for this reason.
    Failed(String),
    /// The bus is closed: nothing can be sent any more.
    BusClosed,
}

/// What an `IngestEvent` holds, as sequences.
pub enum IngestEventView {
    Connected,
    Page(ChatPageView),
    StreamEnded,
    Failed(Seq<char>),
    BusClosed,
}

impl View for IngestEvent {
    type V = IngestEventView;

    open spec fn view(&self) -> IngestEventView {
        match *self {
            IngestEvent::Connected => IngestEventView::Connected,
            IngestEvent::Page(page) => IngestEventView::Page(page@),
            IngestEvent::StreamEnded => IngestEventView::StreamEnded,
            IngestEvent::Failed(reason) => IngestEventView::Failed(reason@),
            IngestEvent::BusClosed => IngestEventView::BusClosed,
        }
    }
}

/// What the task does once it has sent what a step gives it to send.
#[derive(Debug, Clone)]
pub enum IngestAction {
    /// Establish the transport session.
    Connect,
    /// Open a stream with this request and read its first page.
    Request(ListRequest),
    /// Read the next page of the open stream.
    ReadNext,
    /// End the task.
    Stop,
}

/// What an `IngestAction` holds, as sequences of characters.
pub enum IngestActionView {
    Connect,
    Request(ListRequestView),
    ReadNext,
    Stop,
}

impl View for IngestAction {
    type V = IngestActionView;

    open spec fn view(&self) -> IngestActionView {
        match *self {
            IngestAction::Connect => IngestActionView::Connect,
            IngestAction::Request(request) => IngestActionView::Request(request@),
            IngestAction::ReadNext => IngestActionView::ReadNext,
            IngestAction::Stop => IngestActionView::Stop,
        }
    }
}

/// One step of the task: what to push to the bus, in this order, and what to
/// do after that.
#[derive(Debug, Clone)]
pub struct IngestStep {
    pub send: Vec<AppEvent>,
    pub action: IngestAction,
}

/// What an `IngestStep` holds, as sequences.
pub struct IngestStepView {
    pub send: Seq<AppEventView>,
    pub action: IngestActionView,
}

impl View for IngestStep {
    type V = IngestStepView;

    open spec fn view(&self) -> IngestStepView {
        IngestStepView { send: self.send.deep_view(), action: self.action@ }
    }
}

/// Chat messages as events of the bus, in their order.
pub open spec fn chat_events(messages: Seq<ChatMessageView>) -> Seq<AppEventView> {
    Seq::new(messages.len(), |i: int| AppEventView::Chat(messages[i]))
}

/// The cursor that a stream has given once one more page has come: that of
/// the page where it carries one, else the one held before.
pub open spec fn captured_after(captured: Option<Seq<char>>, page: ChatPageView) -> Option<Seq<char>> {
    match page.next_page_token {
        Some(token) => Some(token),
        None => captured,
    }
}

/// The state that follows an event.
///
/// A session that stands starts the first stream. Each page is recorded. A
/// stream that ends with a cursor is followed by the next stream; one that
/// ends without any ends the task, and so does a failure, a closed bus, or
/// an event that the state does not expect.
pub open spec fn next_state(state: IngestStateView, event: IngestEventView) -> IngestStateView {
    match (state, event) {
        (IngestStateView::Connecting, IngestEventView::Connected) => IngestStateView::Streaming {
            captured: None,
        },
        (
            IngestStateView::Streaming { captured },
            IngestEventView::Page(page),
        ) => IngestStateView::Streaming { captured: captured_after(captured, page) },
        (
            IngestStateView::Streaming { captured: Some(_) },
            IngestEventView::StreamEnded,
        ) => IngestStateView::Streaming { captured: None },
        _ => IngestStateView::Terminated,
    }
}

/// The action that answers an event.
///
/// The first request carries no cursor; a continued one carries the cursor
/// that the stream before it gave. After a page the stream is read on.
pub open spec fn next_action(
    live_chat_id: Seq<char>,
    state: IngestStateView,
    event: IngestEventView,
) -> IngestActionView {
    match (state, event) {
        (IngestStateView::Connecting, IngestEventView::Connected) => IngestActionView::Request(
            list_request(live_chat_id, None),
        ),
        (IngestStateView::Streaming { captured }, IngestEventView::Page(page)) => {
            IngestActionView::ReadNext
        },
        (
            IngestStateView::Streaming { captured: Some(cursor) },
            IngestEventView::StreamEnded,
        ) => IngestActionView::Request(list_request(live_chat_id, Some(cursor))),
        _ => IngestActionView::Stop,
    }
}

/// What an event gives to push to the bus.
///
/// A session that stands is announced. The messages of a page follow in the
/// order of its items. The end of the task is announced as a disconnect,
/// behind the reason where a failure ended it. A task that has ended, and
/// one whose bus is closed, sends nothing.
pub open spec fn next_send(state: IngestStateView, event: IngestEventView) -> Seq<AppEventView> {
    match (state, event) {
        (IngestStateView::Terminated, _) => Seq::empty(),
        (_, IngestEventView::BusClosed) => Seq::empty(),
        (IngestStateView::Connecting, IngestEventView::Connected) => seq![
            AppEventView::Status(StatusEvent::Connected),
        ],
        (IngestStateView::Streaming { captured }, IngestEventView::Page(page)) => chat_events(
            feed_messages(page.items),
        ),
        (
            IngestStateView::Streaming { captured: Some(_) },
            IngestEventView::StreamEnded,
        ) => Seq::empty(),
        (_, IngestEventView::Failed(reason)) => seq![
            AppEventView::Error(reason),
            AppEventView::Status(StatusEvent::Disconnected),
        ],
        _ => seq![AppEventView::Status(StatusEvent::Disconnected)],
    }
}

/// The step that answers an event.
pub open spec fn next_step(
    live_chat_id: Seq<char>,
    state: IngestStateView,
    event: IngestEventView,
) -> IngestStepView {
    IngestStepView {
        send: next_send(state, event),
        action: next_action(live_chat_id, state, event),
    }
}

/// The first step of a task: it announces that it connects, and connects.
pub open spec fn first_step() -> IngestStepView {
    IngestStepView {
        send: seq![AppEventView::Status(StatusEvent::Connecting)],
        action: IngestActionView::Connect,
    }
}

/// The messages of a page as events of the bus, in the order of its items.
pub fn page_events(page: &ChatPage) -> (events: Vec<AppEvent>)
    ensures
        events.deep_view() == chat_events(feed_messages(page@.items)),
{
    let mut events: Vec<AppEvent> = Vec::new();
    let mut i: usize = 0;
    proof {
        assert(page@.items.subrange(0, 0) =~= Seq::<RemoteItemView>::empty());
        assert(events.deep_view() =~= chat_events(Seq::<ChatMessageView>::empty()));
    }
    while i < page.items.len()
        invariant
            i <= page.items.len(),
            events.deep_view() == chat_events(feed_messages(page@.items.subrange(0, i as int))),
        decreases page.items.len() - i,
    {
        let ghost before = events.deep_view();
        let ghost messages = feed_messages(page@.items.subrange(0, i as int));
        let produced = message_from_item(&page.items[i]);
        proof {
            let upto = page@.items.subrange(0, i as int + 1);
            assert(upto.drop_last() =~= page@.items.subrange(0, i as int));
            assert(upto.last() == page.items[i as int]@);
        }
        match produced {
            Some(m) => {
                events.push(AppEvent::Chat(m));
                proof {
                    assert(events.deep_view() =~= before.push(AppEventView::Chat(m@)));
                    assert(before.push(AppEventView::Chat(m@)) =~= chat_events(messages.push(m@)));
                }
            },
            None => {},
        }
        i += 1;
    }
    proof {
        assert(page@.items.subrange(0, i as int) =~= page@.items);
    }
    events
}

/// The ingestion task of one live chat.
#[derive(Debug, Clone)]
pub struct Ingestion {
    pub live_chat_id: String,
    pub state: IngestState,
}

impl Ingestion {
    /// A task that has yet to connect.
    pub fn new(live_chat_id: String) -> (task: Ingestion)
        ensures
            task.live_chat_id == live_chat_id,
            task.state == IngestState::Connecting,
    {
        Ingestion { live_chat_id, state: IngestState::Connecting }
    }

    /// Whether the task has ended.
    pub fn is_terminated(&self) -> (ended: bool)
        ensures
            ended == (self.state@ == IngestStateView::Terminated),
    {
        match self.state {
            IngestState::Terminated => true,
            _ => false,
        }
    }

    /// The request that continues this chat from `cursor`.
    pub fn request(&self, cursor: Option<String>) -> (request: ListRequest)
        ensures
            request@ == list_request(self.live_chat_id@, text_of(cursor)),
    {
        ListRequest {
            live_chat_id: self.live_chat_id.clone(),
            max_results: MAX_RESULTS,
            page_token: cursor,
            locale: String::from_str("en"),
        }
    }

    /// The step with which a task begins.
    pub fn start(&self) -> (step: IngestStep)
        ensures
            step@ == first_step(),
    {
        let mut send: Vec<AppEvent> = Vec::new();
        send.push(AppEvent::Status(StatusEvent::Connecting));
        let step = IngestStep { send, action: IngestAction::Connect };
        proof {
            assert(step@.send =~= first_step().send);
        }
        step
    }

    /// Takes one event; gives the task in its next state, and its next step.
    pub fn step(self, event: IngestEvent) -> (next: (Ingestion, IngestStep))
        ensures
            next.0.live_chat_id == self.live_chat_id,
            next.0.state@ == next_state(self.state@, event@),
            next.1@ == next_step(self.live_chat_id@, self.state@, event@),
    {
        let Ingestion { live_chat_id, state } = self;
        let mut send: Vec<AppEvent> = Vec::new();
        proof {
            assert(send.deep_view() =~= Seq::<AppEventView>::empty());
        }
        match (state, event) {
            (IngestState::Terminated, _) => (
                Ingestion { live_chat_id, state: IngestState::Terminated },
                IngestStep { send, action: IngestAction::Stop },
            ),
            (_, IngestEvent::BusClosed) => (
                Ingestion { live_chat_id, state: IngestState::Terminated },
                IngestStep { send, action: IngestAction::Stop },
            ),
            (IngestState::Connecting, IngestEvent::Connected) => {
                let task = Ingestion { live_chat_id, state: IngestState::Streaming { captured: None } };
                let request = task.request(None);
                send.push(AppEvent::Status(StatusEvent::Connected));
                proof {
                    assert(send.deep_view() =~= seq![AppEventView::Status(StatusEvent::Connected)]);
                }
                (task, IngestStep { send, action: IngestAction::Request(request) })
            },
            (IngestState::Streaming { captured }, IngestEvent::Page(page)) => {
                let events = page_events(&page);
                let captured = match page.next_page_token {
                    Some(token) => Some(token),
                    None => captured,
                };
                (
                    Ingestion { live_chat_id, state: IngestState::Streaming { captured } },
                    IngestStep { send: events, action: IngestAction::ReadNext },
                )
            },
            (IngestState::Streaming { captured: Some(cursor) }, IngestEvent::StreamEnded) => {
                let task = Ingestion { live_chat_id, state: IngestState::Streaming { captured: None } };
                let request = task.request(Some(cursor));
                (task, IngestStep { send, action: IngestAction::Request(request) })
            },
            (_, IngestEvent::Failed(reason)) => {
                let ghost why = reason@;
                send.push(AppEvent::Error(reason));
                send.push(AppEvent::Status(StatusEvent::Disconnected));
                proof {
                    assert(send.deep_view() =~= seq![
                        AppEventView::Error(why),
                        AppEventView::Status(StatusEvent::Disconnected),
                    ]);
                }
                (
                    Ingestion { live_chat_id, state: IngestState::Terminated },
                    IngestStep { send, action: IngestAction::Stop },
                )
            },
            _ => {
                send.push(AppEvent::Status(StatusEvent::Disconnected));
                proof {
                    assert(send.deep_view() =~= seq![
                        AppEventView::Status(StatusEvent::Disconnected),
                    ]);
                }
                (
                    Ingestion { live_chat_id, state: IngestState::Terminated },
                    IngestStep { send, action: IngestAction::Stop },
                )
            },
        }
    }
}

/// The state and the steps that a run of events leads to, taken in order
/// from `state`.
pub open spec fn run_of(live_chat_id: Seq<char>, state: IngestStateView, events: Seq<IngestEventView>) -> (
    IngestStateView,
    Seq<IngestStepView>,
)
    decreases events.len(),
{
    if events.len() == 0 {
        (state, Seq::empty())
    } else {
        let earlier = run_of(live_chat_id, state, events.drop_last());
        (
            next_state(earlier.0, events.last()),
            earlier.1.push(next_step(live_chat_id, earlier.0, events.last())),
        )
    }
}

/// Pass-through: the messages of a run of items are those of its first part
/// followed by those of the rest. Nothing is reordered, merged or dropped
/// across pages.
pub proof fn lemma_feed_in_order(first: Seq<RemoteItemView>, rest: Seq<RemoteItemView>)
    ensures
        feed_messages(first + rest) == feed_messages(first) + feed_messages(rest),
    decreases rest.len(),
{
    if rest.len() == 0 {
        assert(first + rest =~= first);
        assert(feed_messages(first) + feed_messages(rest) =~= feed_messages(first));
    } else {
        lemma_feed_in_order(first, rest.drop_last());
        assert((first + rest).drop_last() =~= first + rest.drop_last());
        assert((first + rest).last() == rest.last());
        match item_message(rest.last()) {
            Some(m) => {
                assert(feed_messages(first + rest) =~= feed_messages(first) + feed_messages(rest));
            },
            None => {},
        }
    }
}

/// Each item gives one message at most, and a page of text messages and new
/// subscribers gives one for each.
pub proof fn lemma_feed_count(items: Seq<RemoteItemView>)
    ensures
        feed_messages(items).len() <= items.len(),
        (forall|i: int| 0 <= i < items.len() ==> items[i].item_type != ItemType::Other)
            ==> feed_messages(items).len() == items.len(),
    decreases items.len(),
{
    if items.len() > 0 {
        lemma_feed_count(items.drop_last());
    }
}

/// A task that has ended stays ended: whatever comes, it sends nothing and
/// asks for nothing but to stop.
pub proof fn lemma_terminated_stays(live_chat_id: Seq<char>, events: Seq<IngestEventView>)
    ensures
        run_of(live_chat_id, IngestStateView::Terminated, events).0 == IngestStateView::Terminated,
        run_of(live_chat_id, IngestStateView::Terminated, events).1.len() == events.len(),
        forall|i: int|
            0 <= i < events.len() ==> #[trigger] run_of(
                live_chat_id,
                IngestStateView::Terminated,
                events,
            ).1[i] == (IngestStepView { send: Seq::empty(), action: IngestActionView::Stop }),
    decreases events.len(),
{
    if events.len() > 0 {
        lemma_terminated_stays(live_chat_id, events.drop_last());
    }
}

/// Pagination: a stream that ends is followed by a request with the cursor
/// of the last page that carried one, and by the end of the task where no
/// page of the stream carried any.
pub proof fn lemma_stream_end(live_chat_id: Seq<char>, captured: Option<Seq<char>>)
    ensures
        captured matches Some(cursor) ==> {
            &&& next_state(IngestStateView::Streaming { captured }, IngestEventView::StreamEnded)
                == (IngestStateView::Streaming { captured: None })
            &&& next_action(
                live_chat_id,
                IngestStateView::Streaming { captured },
                IngestEventView::StreamEnded,
            ) == IngestActionView::Request(list_request(live_chat_id, Some(cursor)))
        },
        captured is None ==> {
            &&& next_state(IngestStateView::Streaming { captured }, IngestEventView::StreamEnded)
                == IngestStateView::Terminated
            &&& next_action(
                live_chat_id,
                IngestStateView::Streaming { captured },
                IngestEventView::StreamEnded,
            ) == IngestActionView::Stop
        },
{
}

/// The task stops exactly when it ends: a step asks to stop if and only if
/// the state behind it is `Terminated`.
pub proof fn lemma_stop_means_ended(
    live_chat_id: Seq<char>,
    state: IngestStateView,
    event: IngestEventView,
)
    ensures
        (next_action(live_chat_id, state, event) == IngestActionView::Stop) <==> (next_state(
            state,
            event,
        ) == IngestStateView::Terminated),
{
}

} // verus!
