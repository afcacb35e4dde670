use std::collections::VecDeque;
use youtube_chat::event::{ChatMessage, MessageKind};
use youtube_chat::state::{AppState, MAX_MESSAGES};

fn numbered(i: usize) -> ChatMessage {
    ChatMessage {
        timestamp: "14:36".to_string(),
        author: "ann".to_string(),
        message: format!("{i}"),
        kind: MessageKind::Subscription,
    }
}

fn bodies(state: &AppState) -> Vec<String> {
    state.messages.iter().map(|m| m.message.clone()).collect()
}

#[test]
fn capacity_is_five_hundred() {
    assert_eq!(MAX_MESSAGES, 500);
}

#[test]
fn log_below_capacity_holds_all_pushes_in_order() {
    let mut state = AppState::new("title".to_string());
    for i in 0..5 {
        state.push_message(numbered(i));
        assert_eq!(state.messages.len(), i + 1);
    }
    assert_eq!(bodies(&state), vec!["0", "1", "2", "3", "4"]);
}

#[test]
fn log_at_capacity_holds_the_last_pushes_in_order() {
    let mut state = AppState::new("title".to_string());
    for i in 0..1234 {
        state.push_message(numbered(i));
        assert_eq!(state.messages.len(), (i + 1).min(500));
    }
    let expected: Vec<String> = (734..1234).map(|i| format!("{i}")).collect();
    assert_eq!(bodies(&state), expected);
}

#[test]
fn push_to_a_full_log_evicts_the_oldest() {
    let mut state = AppState::new("title".to_string());
    for i in 0..500 {
        state.push_message(numbered(i));
    }
    assert_eq!(state.messages[0].message, "0");
    state.push_message(numbered(500));
    assert_eq!(state.messages.len(), 500);
    assert_eq!(state.messages[0].message, "1");
    assert_eq!(state.messages[499].message, "500");
}

#[test]
fn push_to_a_log_beyond_capacity_brings_it_back() {
    let mut state = AppState::new("title".to_string());
    state.messages = VecDeque::from((0..600).map(numbered).collect::<Vec<_>>());
    state.push_message(numbered(600));
    assert_eq!(state.messages.len(), 500);
    assert_eq!(state.messages[0].message, "101");
    assert_eq!(state.messages[499].message, "600");
}
