use coder::conversation::bounded_suffix;
use coder::conversation::Conversation;
use coder::conversation::Message;
use coder::conversation::MessageRole;

fn user_message(content: &str) -> Message {
    Message::text(MessageRole::User, content.to_string())
}

#[test]
fn bounded_cut_keeps_the_longest_fitting_suffix() {
    // Costs [3, 4, 5], budget 10: the last two messages cost 4 + 5 = 9,
    // which fits; adding the 3-cost message would make 12 > 10.
    let messages = vec![user_message("oldest"), user_message("middle"), user_message("newest")];
    let counts = vec![3, 4, 5];
    let view = bounded_suffix(&messages, &counts, 10);
    assert_eq!(view.len(), 2);
    assert_eq!(view[0].content, "middle");
    assert_eq!(view[1].content, "newest");
}

#[test]
fn bounded_cut_may_be_empty() {
    // Even the single most recent message exceeds the budget.
    let messages = vec![user_message("a"), user_message("b")];
    let counts = vec![1, 11];
    let view = bounded_suffix(&messages, &counts, 10);
    assert!(view.is_empty());
}

#[test]
fn bounded_cut_stops_at_the_first_overflowing_message() {
    // The 20-cost message in the middle blocks everything older, even
    // though the oldest message alone would fit.
    let messages = vec![user_message("tiny"), user_message("huge"), user_message("ok")];
    let counts = vec![1, 20, 2];
    let view = bounded_suffix(&messages, &counts, 10);
    assert_eq!(view.len(), 1);
    assert_eq!(view[0].content, "ok");
}

#[test]
fn system_message_is_evicted_like_any_other() {
    // No message is pinned: a long enough tail of newer messages pushes
    // the system instructions out of the transmitted view.
    let messages = vec![
        Message::text(MessageRole::System, "instructions".to_string()),
        user_message("request"),
        user_message("follow-up"),
    ];
    let counts = vec![5, 4, 5];
    let view = bounded_suffix(&messages, &counts, 9);
    assert_eq!(view.len(), 2);
    assert_eq!(view[0].role, MessageRole::User);
    assert_eq!(view[0].content, "request");
    assert_eq!(view[1].content, "follow-up");
}

#[test]
fn unbounded_view_is_the_identity() {
    // Without a token budget the bounded view returns the full log
    // unchanged, in the same order, and consults no tokenizer.
    let mut convo = Conversation::new(
        "test-model".to_string(),
        "test-provider".to_string(),
        None,
        ".".to_string(),
    );
    convo.add_message(user_message("first"));
    convo.add_message(user_message("second"));
    convo.add_message(user_message("third"));
    let view = convo.to_bounded_view().unwrap();
    assert_eq!(view.len(), 3);
    assert_eq!(view[0].content, "first");
    assert_eq!(view[1].content, "second");
    assert_eq!(view[2].content, "third");
}

#[test]
fn total_token_count_is_positive() {
    let mut convo = Conversation::new(
        "test-model".to_string(),
        "test-provider".to_string(),
        None,
        ".".to_string(),
    );
    convo.add_message(user_message("Please fix the issue."));
    let total = convo.get_current_tokens().unwrap();
    assert!(total > 0);
    assert!(total < 100);
}

#[test]
fn bounded_view_with_ample_budget_keeps_everything() {
    let mut convo = Conversation::new(
        "test-model".to_string(),
        "test-provider".to_string(),
        Some(100000),
        ".".to_string(),
    );
    convo.add_message(user_message("On it."));
    let view = convo.to_bounded_view().unwrap();
    assert_eq!(view.len(), 1);
    assert_eq!(view[0].content, "On it.");
}

#[test]
fn messages_correlate_tool_results() {
    let m = Message::tool_result("output".to_string(), "call_7".to_string());
    assert_eq!(m.role, MessageRole::Tool);
    assert_eq!(m.tool_call_id.as_deref(), Some("call_7"));
    let m = user_message("hi");
    assert!(m.tool_call_id.is_none());
}
