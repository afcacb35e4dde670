use youtube_chat::models::{
    channel_query, live_details_query, live_video_query, ApiQuery, ChatLookup, Endpoint,
    LiveStreamingDetails, LookupAnswer, LookupStep, SearchId, SearchItem, SearchResponse,
    VideoItem, VideoListResponse, VideoSnippet,
};

fn pairs(query: &ApiQuery) -> Vec<(&str, &str)> {
    query.params.iter().map(|p| (p.name.as_str(), p.value.as_str())).collect()
}

fn search(ids: Vec<Option<SearchId>>) -> SearchResponse {
    SearchResponse { items: ids.into_iter().map(|id| SearchItem { id }).collect() }
}

fn id(video: Option<&str>, channel: Option<&str>) -> Option<SearchId> {
    Some(SearchId {
        video_id: video.map(|v| v.to_string()),
        channel_id: channel.map(|c| c.to_string()),
    })
}

fn video(chat: Option<&str>, viewers: Option<&str>) -> VideoItem {
    VideoItem {
        live_streaming_details: Some(LiveStreamingDetails {
            active_live_chat_id: chat.map(|c| c.to_string()),
            concurrent_viewers: viewers.map(|v| v.to_string()),
        }),
        snippet: Some(VideoSnippet { channel_title: Some("Some Channel".to_string()) }),
    }
}

fn asked(step: LookupStep) -> ApiQuery {
    match step {
        LookupStep::Ask(query) => query,
        other => panic!("expected a query, got {other:?}"),
    }
}

#[test]
fn channel_query_searches_channels_by_name() {
    let query = channel_query("some channel");
    assert_eq!(query.endpoint, Endpoint::Search);
    assert_eq!(
        pairs(&query),
        vec![("part", "snippet"), ("q", "some channel"), ("type", "channel"), ("maxResults", "1")]
    );
}

#[test]
fn live_video_query_searches_live_videos_of_a_channel() {
    let query = live_video_query("UC123");
    assert_eq!(query.endpoint, Endpoint::Search);
    assert_eq!(
        pairs(&query),
        vec![
            ("part", "id"),
            ("channelId", "UC123"),
            ("eventType", "live"),
            ("type", "video"),
            ("maxResults", "1"),
        ]
    );
}

#[test]
fn live_details_query_asks_for_a_video() {
    let query = live_details_query("vid42");
    assert_eq!(query.endpoint, Endpoint::Videos);
    assert_eq!(pairs(&query), vec![("part", "liveStreamingDetails"), ("id", "vid42")]);
}

#[test]
fn first_hit_decides() {
    let answer = search(vec![id(Some("v1"), Some("c1")), id(Some("v2"), Some("c2"))]);
    assert_eq!(answer.first_channel_id(), Some("c1".to_string()));
    assert_eq!(answer.first_video_id(), Some("v1".to_string()));
    let answer = search(vec![id(None, None), id(Some("v2"), Some("c2"))]);
    assert_eq!(answer.first_channel_id(), None);
    assert_eq!(answer.first_video_id(), None);
    let answer = search(vec![None, id(Some("v2"), Some("c2"))]);
    assert_eq!(answer.first_channel_id(), None);
    assert_eq!(answer.first_video_id(), None);
    let answer = search(Vec::new());
    assert_eq!(answer.first_channel_id(), None);
    assert_eq!(answer.first_video_id(), None);
}

#[test]
fn first_video_gives_chat_and_viewers() {
    let answer = VideoListResponse {
        items: vec![video(Some("chat1"), Some("321")), video(Some("chat2"), Some("5"))],
    };
    assert_eq!(answer.first_live_chat_id(), Some("chat1".to_string()));
    assert_eq!(answer.first_concurrent_viewers(), Some("321".to_string()));
    let answer = VideoListResponse { items: vec![video(None, None)] };
    assert_eq!(answer.first_live_chat_id(), None);
    assert_eq!(answer.first_concurrent_viewers(), None);
    let answer = VideoListResponse {
        items: vec![VideoItem { live_streaming_details: None, snippet: None }],
    };
    assert_eq!(answer.first_live_chat_id(), None);
    assert_eq!(answer.first_concurrent_viewers(), None);
    let answer = VideoListResponse { items: Vec::new() };
    assert_eq!(answer.first_live_chat_id(), None);
    assert_eq!(answer.first_concurrent_viewers(), None);
}

fn videos(items: Vec<VideoItem>) -> LookupAnswer {
    LookupAnswer::Videos(VideoListResponse { items })
}

#[test]
fn lookup_leads_from_name_to_chat() {
    let (lookup, step) = ChatLookup::start("some channel");
    assert!(matches!(lookup, ChatLookup::Channel));
    let query = asked(step);
    assert_eq!(query.endpoint, Endpoint::Search);
    assert_eq!(pairs(&query)[1], ("q", "some channel"));

    let (lookup, step) = lookup.advance(LookupAnswer::Search(search(vec![id(None, Some("UC1"))])));
    assert!(matches!(lookup, ChatLookup::LiveVideo));
    let query = asked(step);
    assert_eq!(query.endpoint, Endpoint::Search);
    assert_eq!(pairs(&query)[1], ("channelId", "UC1"));

    let (lookup, step) = lookup.advance(LookupAnswer::Search(search(vec![id(Some("vid42"), None)])));
    assert!(matches!(&lookup, ChatLookup::Details { video_id } if video_id == "vid42"));
    let query = asked(step);
    assert_eq!(query.endpoint, Endpoint::Videos);
    assert_eq!(pairs(&query)[1], ("id", "vid42"));

    let (lookup, step) = lookup.advance(videos(vec![video(Some("chat1"), Some("321"))]));
    assert!(matches!(lookup, ChatLookup::Finished));
    match step {
        LookupStep::Found { video_id, chat_id } => {
            assert_eq!(video_id, "vid42");
            assert_eq!(chat_id, "chat1");
        },
        other => panic!("expected a chat, got {other:?}"),
    }
}

#[test]
fn lookup_ends_where_a_step_finds_nothing() {
    let ended = |lookup: ChatLookup, answer: LookupAnswer| {
        let (lookup, step) = lookup.advance(answer);
        matches!(lookup, ChatLookup::Finished) && matches!(step, LookupStep::NotFound)
    };
    assert!(ended(ChatLookup::Channel, LookupAnswer::Search(search(Vec::new()))));
    assert!(ended(ChatLookup::Channel, LookupAnswer::Search(search(vec![id(Some("v"), None)]))));
    assert!(ended(ChatLookup::LiveVideo, LookupAnswer::Search(search(Vec::new()))));
    assert!(ended(ChatLookup::LiveVideo, LookupAnswer::Search(search(vec![id(None, Some("c"))]))));
    let details = || ChatLookup::Details { video_id: "vid42".to_string() };
    assert!(ended(details(), videos(Vec::new())));
    assert!(ended(details(), videos(vec![video(None, Some("3"))])));
}

#[test]
fn lookup_ends_on_an_answer_it_did_not_ask_for() {
    let ended = |lookup: ChatLookup, answer: LookupAnswer| {
        let (lookup, step) = lookup.advance(answer);
        matches!(lookup, ChatLookup::Finished) && matches!(step, LookupStep::NotFound)
    };
    let hit = || LookupAnswer::Search(search(vec![id(Some("v"), Some("c"))]));
    let live = || videos(vec![video(Some("chat1"), Some("321"))]);
    assert!(ended(ChatLookup::Channel, live()));
    assert!(ended(ChatLookup::LiveVideo, live()));
    assert!(ended(ChatLookup::Details { video_id: "vid42".to_string() }, hit()));
    assert!(ended(ChatLookup::Finished, hit()));
    assert!(ended(ChatLookup::Finished, live()));
}
