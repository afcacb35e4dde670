//! The answers of the search and video endpoints, and the steps that lead
//! from the name of a channel to the chat of its live broadcast.

use vstd::prelude::*;
use vstd::string::*;

verus! {

/// The answer of the video endpoint.
#[derive(Debug, Clone)]
pub struct VideoListResponse {
    pub items: Vec<VideoItem>,
}

/// One video of a `VideoListResponse`.
#[derive(Debug, Clone)]
pub struct VideoItem {
    pub live_streaming_details: Option<LiveStreamingDetails>,
    pub snippet: Option<VideoSnippet>,
}

/// What a video says of its live broadcast.
#[derive(Debug, Clone)]
pub struct LiveStreamingDetails {
    pub active_live_chat_id: Option<String>,
    pub concurrent_viewers: Option<String>,
}

/// What a video says of itself.
#[derive(Debug, Clone)]
pub struct VideoSnippet {
    pub channel_title: Option<String>,
}

/// The answer of the search endpoint.
#[derive(Debug, Clone)]
pub struct SearchResponse {
    pub items: Vec<SearchItem>,
}

/// One hit of a `SearchResponse`.
#[derive(Debug, Clone)]
pub struct SearchItem {
    pub id: Option<SearchId>,
}

/// What a hit points at.
#[derive(Debug, Clone)]
pub struct SearchId {
    pub video_id: Option<String>,
    pub channel_id: Option<String>,
}

/// The identifier of the first hit, if the answer has a hit and the hit an
/// identifier.
pub open spec fn first_id(response: SearchResponse) -> Option<SearchId> {
    if response.items@.len() > 0 {
        response.items@[0].id
    } else {
        None
    }
}

/// The channel that the first hit points at.
pub open spec fn first_channel(response: SearchResponse) -> Option<String> {
    match first_id(response) {
        Some(id) => id.channel_id,
        None => None,
    }
}

/// The video that the first hit points at.
pub open spec fn first_video(response: SearchResponse) -> Option<String> {
    match first_id(response) {
        Some(id) => id.video_id,
        None => None,
    }
}

/// What the first video says of its live broadcast.
pub open spec fn first_details(response: VideoListResponse) -> Option<LiveStreamingDetails> {
    if response.items@.len() > 0 {
        response.items@[0].live_streaming_details
    } else {
        None
    }
}

/// The chat of the live broadcast of the first video.
pub open spec fn first_live_chat(response: VideoListResponse) -> Option<String> {
    match first_details(response) {
        Some(details) => details.active_live_chat_id,
        None => None,
    }
}

/// The viewer count of the live broadcast of the first video, as the
/// endpoint writes it.
pub open spec fn first_viewers(response: VideoListResponse) -> Option<String> {
    match first_details(response) {
        Some(details) => details.concurrent_viewers,
        None => None,
    }
}

/// A copy of an optional string.
fn copy_of(text: &Option<String>) -> (copy: Option<String>)
    ensures
        copy == *text,
{
    match text {
        Some(t) => Some(t.clone()),
        None => None,
    }
}

impl SearchResponse {
    /// The channel that the first hit points at.
    pub fn first_channel_id(&self) -> (id: Option<String>)
        ensures
            id == first_channel(*self),
    {
        if self.items.len() == 0 {
            return None;
        }
        match &self.items[0].id {
            Some(id) => copy_of(&id.channel_id),
            None => None,
        }
    }

    /// The video that the first hit points at.
    pub fn first_video_id(&self) -> (id: Option<String>)
        ensures
            id == first_video(*self),
    {
        if self.items.len() == 0 {
            return None;
        }
        match &self.items[0].id {
            Some(id) => copy_of(&id.video_id),
            None => None,
        }
    }
}

impl VideoListResponse {
    /// The chat of the live broadcast of the first video.
    pub fn first_live_chat_id(&self) -> (id: Option<String>)
        ensures
            id == first_live_chat(*self),
    {
        if self.items.len() == 0 {
            return None;
        }
        match &self.items[0].live_streaming_details {
            Some(details) => copy_of(&details.active_live_chat_id),
            None => None,
        }
    }

    /// The viewer count of the live broadcast of the first video, as the
    /// endpoint writes it.
    pub fn first_concurrent_viewers(&self) -> (viewers: Option<String>)
        ensures
            viewers == first_viewers(*self),
    {
        if self.items.len() == 0 {
            return None;
        }
        match &self.items[0].live_streaming_details {
            Some(details) => copy_of(&details.concurrent_viewers),
            None => None,
        }
    }
}

/// The endpoint that a query goes to.
#[derive(Debug, Clone, Copy, PartialEq, Eq, Structural)]
pub enum Endpoint {
    Search,
    Videos,
}

/// One parameter of a query.
#[derive(Debug, Clone)]
pub struct QueryParam {
    pub name: String,
    pub value: String,
}

impl View for QueryParam {
    type V = (Seq<char>, Seq<char>);

    open spec fn view(&self) -> (Seq<char>, Seq<char>) {
        (self.name@, self.value@)
    }
}

impl DeepView for QueryParam {
    type V = (Seq<char>, Seq<char>);

    open spec fn deep_view(&self) -> (Seq<char>, Seq<char>) {
        self@
    }
}

/// A query: its endpoint and its parameters in order.
#[derive(Debug, Clone)]
pub struct ApiQuery {
    pub endpoint: Endpoint,
    pub params: Vec<QueryParam>,
}

/// What an `ApiQuery` holds, as sequences of characters.
pub struct ApiQueryView {
    pub endpoint: Endpoint,
    pub params: Seq<(Seq<char>, Seq<char>)>,
}

impl View for ApiQuery {
    type V = ApiQueryView;

    open spec fn view(&self) -> ApiQueryView {
        ApiQueryView { endpoint: self.endpoint, params: self.params.deep_view() }
    }
}

/// The search for the channel of a name: the best hit among channels.
pub open spec fn channel_search(channel_name: Seq<char>) -> ApiQueryView {
    ApiQueryView {
        endpoint: Endpoint::Search,
        params: seq![
            ("part"@, "snippet"@),
            ("q"@, channel_name),
            ("type"@, "channel"@),
            ("maxResults"@, "1"@),
        ],
    }
}

/// The search for the live broadcast of a channel: the best hit among its
/// live videos.
pub open spec fn live_video_search(channel_id: Seq<char>) -> ApiQueryView {
    ApiQueryView {
        endpoint: Endpoint::Search,
        params: seq![
            ("part"@, "id"@),
            ("channelId"@, channel_id),
            ("eventType"@, "live"@),
            ("type"@, "video"@),
            ("maxResults"@, "1"@),
        ],
    }
}

/// The question for the live details of a video.
pub open spec fn live_details_list(video_id: Seq<char>) -> ApiQueryView {
    ApiQueryView {
        endpoint: Endpoint::Videos,
        params: seq![("part"@, "liveStreamingDetails"@), ("id"@, video_id)],
    }
}

/// A parameter from a name and a value.
fn param(name: &str, value: &str) -> (p: QueryParam)
    ensures
        p@ == (name@, value@),
{
    QueryParam { name: String::from_str(name), value: String::from_str(value) }
}

/// The search for the channel of a name.
pub fn channel_query(channel_name: &str) -> (query: ApiQuery)
    ensures
        query@ == channel_search(channel_name@),
{
    let mut params: Vec<QueryParam> = Vec::new();
    params.push(param("part", "snippet"));
    params.push(param("q", channel_name));
    params.push(param("type", "channel"));
    params.push(param("maxResults", "1"));
    let query = ApiQuery { endpoint: Endpoint::Search, params };
    proof {
        assert(query@.params =~= channel_search(channel_name@).params);
    }
    query
}

/// The search for the live broadcast of a channel.
pub fn live_video_query(channel_id: &str) -> (query: ApiQuery)
    ensures
        query@ == live_video_search(channel_id@),
{
    let mut params: Vec<QueryParam> = Vec::new();
    params.push(param("part", "id"));
    params.push(param("channelId", channel_id));
    params.push(param("eventType", "live"));
    params.push(param("type", "video"));
    params.push(param("maxResults", "1"));
    let query = ApiQuery { endpoint: Endpoint::Search, params };
    proof {
        assert(query@.params =~= live_video_search(channel_id@).params);
    }
    query
}

/// The question for the live details of a video.
pub fn live_details_query(video_id: &str) -> (query: ApiQuery)
    ensures
        query@ == live_details_list(video_id@),
{
    let mut params: Vec<QueryParam> = Vec::new();
    params.push(param("part", "liveStreamingDetails"));
    params.push(param("id", video_id));
    let query = ApiQuery { endpoint: Endpoint::Videos, params };
    proof {
        assert(query@.params =~= live_details_list(video_id@).params);
    }
    query
}

/// What the search for a chat does next.
#[derive(Debug, Clone)]
pub enum LookupStep {
    /// Send this query and come back with its answer.
    Ask(ApiQuery),
    /// The live broadcast and its chat are found.
    Found { video_id: String, chat_id: String },
    /// The channel has no live chat.
    NotFound,
}

/// What a `LookupStep` holds, as sequences of characters.
pub enum LookupStepView {
    Ask(ApiQueryView),
    Found { video_id: Seq<char>, chat_id: Seq<char> },
    NotFound,
}

impl View for LookupStep {
    type V = LookupStepView;

    open spec fn view(&self) -> LookupStepView {
        match *self {
            LookupStep::Ask(query) => LookupStepView::Ask(query@),
            LookupStep::Found { video_id, chat_id } => LookupStepView::Found {
                video_id: video_id@,
                chat_id: chat_id@,
            },
            LookupStep::NotFound => LookupStepView::NotFound,
        }
    }
}

/// The answer to a query, by the endpoint that gave it.
#[derive(Debug, Clone)]
pub enum LookupAnswer {
    Search(SearchResponse),
    Videos(VideoListResponse),
}

/// Where the search for the chat of a channel stands: which answer it waits
/// for.
#[derive(Debug, Clone)]
pub enum ChatLookup {
    /// For the channel of the name.
    Channel,
    /// For the live video of the channel.
    LiveVideo,
    /// For the live details of the video.
    Details { video_id: String },
    /// For nothing: the search is over.
    Finished,
}

/// What a `ChatLookup` holds, as sequences of characters.
pub enum ChatLookupView {
    Channel,
    LiveVideo,
    Details { video_id: Seq<char> },
    Finished,
}

impl View for ChatLookup {
    type V = ChatLookupView;

    open spec fn view(&self) -> ChatLookupView {
        match *self {
            ChatLookup::Channel => ChatLookupView::Channel,
            ChatLookup::LiveVideo => ChatLookupView::LiveVideo,
            ChatLookup::Details { video_id } => ChatLookupView::Details { video_id: video_id@ },
            ChatLookup::Finished => ChatLookupView::Finished,
        }
    }
}

/// Where the search stands after an answer.
///
/// Each answer that names what was asked for leads one stage on; an answer
/// that names nothing, or that comes from the wrong endpoint, ends the
/// search.
pub open spec fn lookup_after(lookup: ChatLookup, answer: LookupAnswer) -> ChatLookupView {
    match (lookup, answer) {
        (ChatLookup::Channel, LookupAnswer::Search(found)) => match first_channel(found) {
            Some(_) => ChatLookupView::LiveVideo,
            None => ChatLookupView::Finished,
        },
        (ChatLookup::LiveVideo, LookupAnswer::Search(found)) => match first_video(found) {
            Some(id) => ChatLookupView::Details { video_id: id@ },
            None => ChatLookupView::Finished,
        },
        _ => ChatLookupView::Finished,
    }
}

/// What the search does after an answer.
///
/// The channel found is searched for its live video, the video found is
/// asked for its details, and the chat in the details is the result,
/// together with the video. Whatever else comes, nothing is found.
pub open spec fn lookup_step(lookup: ChatLookup, answer: LookupAnswer) -> LookupStepView {
    match (lookup, answer) {
        (ChatLookup::Channel, LookupAnswer::Search(found)) => match first_channel(found) {
            Some(id) => LookupStepView::Ask(live_video_search(id@)),
            None => LookupStepView::NotFound,
        },
        (ChatLookup::LiveVideo, LookupAnswer::Search(found)) => match first_video(found) {
            Some(id) => LookupStepView::Ask(live_details_list(id@)),
            None => LookupStepView::NotFound,
        },
        (ChatLookup::Details { video_id }, LookupAnswer::Videos(found)) => match first_live_chat(
            found,
        ) {
            Some(id) => LookupStepView::Found { video_id: video_id@, chat_id: id@ },
            None => LookupStepView::NotFound,
        },
        _ => LookupStepView::NotFound,
    }
}

impl ChatLookup {
    /// The start of the search for the chat of a channel: the stage, and
    /// the first query.
    pub fn start(channel_name: &str) -> (first: (ChatLookup, LookupStep))
        ensures
            first.0@ == ChatLookupView::Channel,
            first.1@ == LookupStepView::Ask(channel_search(channel_name@)),
    {
        (ChatLookup::Channel, LookupStep::Ask(channel_query(channel_name)))
    }

    /// Takes the answer to the last query; gives the next stage, and what
    /// to do.
    pub fn advance(self, answer: LookupAnswer) -> (next: (ChatLookup, LookupStep))
        ensures
            next.0@ == lookup_after(self, answer),
            next.1@ == lookup_step(self, answer),
    {
        match (self, answer) {
            (ChatLookup::Channel, LookupAnswer::Search(found)) => match found.first_channel_id() {
                Some(id) => (ChatLookup::LiveVideo, LookupStep::Ask(live_video_query(id.as_str()))),
                None => (ChatLookup::Finished, LookupStep::NotFound),
            },
            (ChatLookup::LiveVideo, LookupAnswer::Search(found)) => match found.first_video_id() {
                Some(id) => {
                    let query = live_details_query(id.as_str());
                    (ChatLookup::Details { video_id: id }, LookupStep::Ask(query))
                },
                None => (ChatLookup::Finished, LookupStep::NotFound),
            },
            (ChatLookup::Details { video_id }, LookupAnswer::Videos(found)) => {
                match found.first_live_chat_id() {
                    Some(chat_id) => (ChatLookup::Finished, LookupStep::Found { video_id, chat_id }),
                    None => (ChatLookup::Finished, LookupStep::NotFound),
                }
            },
            _ => (ChatLookup::Finished, LookupStep::NotFound),
        }
    }
}

} // verus!
