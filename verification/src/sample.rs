//! A short stretch of chat to show the viewer without a live broadcast.

use crate::event::{ChatMessage, ChatMessageView, MessageKind};
use vstd::prelude::*;
use vstd::string::*;

verus! {

/// A chat message from its parts.
fn message(timestamp: &str, author: &str, body: &str, kind: MessageKind) -> (m: ChatMessage)
    ensures
        m@ == (ChatMessageView { timestamp: timestamp@, author: author@, message: body@, kind }),
{
    ChatMessage {
        timestamp: String::from_str(timestamp),
        author: String::from_str(author),
        message: String::from_str(body),
        kind,
    }
}

/// What a text message of the sample says.
pub open spec fn sample_text(timestamp: Seq<char>, author: Seq<char>, body: Seq<char>) -> ChatMessageView {
    ChatMessageView { timestamp, author, message: body, kind: MessageKind::Text }
}

/// What a subscription of the sample says.
pub open spec fn sample_subscription(
    timestamp: Seq<char>,
    author: Seq<char>,
    body: Seq<char>,
) -> ChatMessageView {
    ChatMessageView { timestamp, author, message: body, kind: MessageKind::Subscription }
}

/// The sample: ten messages of two minutes of chat, two of them
/// subscriptions.
pub open spec fn sample_log() -> Seq<ChatMessageView> {
    seq![
        sample_text("14:36"@, "EliQeener"@, "hungy MYAAA"@),
        sample_text("14:36"@, "misfitspadel46"@, "big egg?"@),
        sample_text(
            "14:36"@,
            "Rapfan"@,
            "Can you get all the pals and use them to wage war?"@,
        ),
        sample_text("14:36"@, "Unain"@, "You can work in your logging camp streamer"@),
        sample_subscription("14:36"@, "EliQeener"@, "subscribed for 1 months!"@),
        sample_text("14:36"@, "AverageJonas"@, "this game is so addicting"@),
        sample_subscription(
            "14:37"@,
            "Vanadin1"@,
            "subscribed for 29 months: cute game cute chat"@,
        ),
        sample_text("14:37"@, "EliQeener"@, "GIGATON"@),
        sample_text("14:37"@, "Son_Of_Ares"@, "did the first boss respawn?"@),
        sample_text("14:37"@, "Strayx"@, "So how Ethical has seagull's expirence been"@),
    ]
}

/// The messages of the sample, oldest first.
pub fn sample_messages() -> (messages: Vec<ChatMessage>)
    ensures
        messages.deep_view() == sample_log(),
{
    let mut messages: Vec<ChatMessage> = Vec::new();
    messages.push(message("14:36", "EliQeener", "hungy MYAAA", MessageKind::Text));
    messages.push(message("14:36", "misfitspadel46", "big egg?", MessageKind::Text));
    messages.push(
        message(
            "14:36",
            "Rapfan",
            "Can you get all the pals and use them to wage war?",
            MessageKind::Text,
        ),
    );
    messages.push(
        message("14:36", "Unain", "You can work in your logging camp streamer", MessageKind::Text),
    );
    messages.push(
        message("14:36", "EliQeener", "subscribed for 1 months!", MessageKind::Subscription),
    );
    messages.push(message("14:36", "AverageJonas", "this game is so addicting", MessageKind::Text));
    messages.push(
        message(
            "14:37",
            "Vanadin1",
            "subscribed for 29 months: cute game cute chat",
            MessageKind::Subscription,
        ),
    );
    messages.push(message("14:37", "EliQeener", "GIGATON", MessageKind::Text));
    messages.push(message("14:37", "Son_Of_Ares", "did the first boss respawn?", MessageKind::Text));
    messages.push(
        message(
            "14:37",
            "Strayx",
            "So how Ethical has seagull's expirence been",
            MessageKind::Text,
        ),
    );
    proof {
        assert(messages.deep_view() =~= sample_log());
    }
    messages
}

} // verus!
