use coder::agent::AgentSession;
use coder::agent::LoopState;
use coder::conversation::Conversation;
use coder::conversation::MessageRole;
use coder::tools::code_write_envelope;
use coder::tools::command_failure;
use coder::tools::done_envelope;

fn fresh_session() -> AgentSession {
    let convo = Conversation::new(
        "test-model".to_string(),
        "test-provider".to_string(),
        None,
        ".".to_string(),
    );
    AgentSession::new(convo, 300)
}

#[test]
fn done_completes_the_session_and_stops_requests() {
    // Executing the terminal tool ends the loop in the completed state,
    // and no further model request is issued afterward.
    let mut session = fresh_session();
    let completed = session.on_tool_result("call_1".to_string(), &done_envelope());
    assert!(completed);
    assert_eq!(session.state(), LoopState::Completed);
    let request = session.next_request().unwrap();
    assert!(request.is_none());
    // Only the tool message was recorded; no steering message follows the
    // terminal result.
    assert_eq!(session.conversation.message_count(), 1);
    let m = session.conversation.get_message(0);
    assert_eq!(m.role, MessageRole::Tool);
    assert_eq!(m.tool_call_id.as_deref(), Some("call_1"));
}

#[test]
fn tool_failure_appends_error_and_retry_steering() {
    // A failed lint command is downgraded to a tool message carrying the
    // error and a steering message; the loop continues.
    let mut session = fresh_session();
    let error = command_failure("cargo fmt", "warning: unused import");
    session.on_tool_failure("call_9".to_string(), error.message().clone());
    assert_eq!(session.state(), LoopState::AwaitingModelResponse);
    assert_eq!(session.conversation.message_count(), 2);
    let tool_msg = session.conversation.get_message(0);
    assert_eq!(tool_msg.role, MessageRole::Tool);
    assert_eq!(
        tool_msg.content,
        "Command 'cargo fmt' failed: warning: unused import"
    );
    assert_eq!(tool_msg.tool_call_id.as_deref(), Some("call_9"));
    let steering = session.conversation.get_message(1);
    assert_eq!(steering.role, MessageRole::User);
    assert_eq!(
        steering.content,
        "Something went wrong can you retry it? maybe take a step back."
    );
    assert!(session.next_request().unwrap().is_some());
}

#[test]
fn retry_envelope_gets_retry_steering() {
    let mut session = fresh_session();
    let env = code_write_envelope(false);
    let completed = session.on_tool_result("call_2".to_string(), &env);
    assert!(!completed);
    assert_eq!(session.state(), LoopState::AwaitingModelResponse);
    assert_eq!(session.conversation.message_count(), 2);
    assert_eq!(
        session.conversation.get_message(1).content,
        "Something went wrong can you retry it?"
    );
}

#[test]
fn ordinary_envelope_gets_proceed_steering() {
    let mut session = fresh_session();
    let env = code_write_envelope(true);
    let completed = session.on_tool_result("call_3".to_string(), &env);
    assert!(!completed);
    assert_eq!(
        session.conversation.get_message(0).content,
        "{\"status\":\"ok\",\"message\":\"Code written\",\"result\":null,\"retry\":false}"
    );
    assert_eq!(
        session.conversation.get_message(1).content,
        "Let's proceed to the next step."
    );
}

#[test]
fn assistant_text_is_stripped_and_recorded() {
    let mut session = fresh_session();
    let reply = session.on_model_response(Some("  Fixing it. <think>\nhidden\n</think>\ndone  "));
    assert_eq!(reply.as_deref(), Some("Fixing it. \ndone"));
    assert_eq!(session.state(), LoopState::AwaitingModelResponse);
    assert_eq!(session.conversation.message_count(), 1);
    let m = session.conversation.get_message(0);
    assert_eq!(m.role, MessageRole::Assistant);
    assert_eq!(m.content, "Fixing it. \ndone");
}

#[test]
fn missing_response_ends_the_session() {
    let mut session = fresh_session();
    let reply = session.on_model_response(None);
    assert!(reply.is_none());
    assert_eq!(session.state(), LoopState::EmptyResponse);
    assert!(session.next_request().unwrap().is_none());
    assert_eq!(session.conversation.message_count(), 0);
}

#[test]
fn mismatched_thinking_delimiters_end_the_session() {
    let mut session = fresh_session();
    let reply = session.on_model_response(Some("</think>oops<think>"));
    assert!(reply.is_none());
    assert_eq!(session.state(), LoopState::EmptyResponse);
}

#[test]
fn timeout_check_stops_the_loop_at_the_budget() {
    let mut session = fresh_session();
    assert!(!session.check_timeout(299));
    assert_eq!(session.state(), LoopState::AwaitingModelResponse);
    assert!(session.check_timeout(300));
    assert_eq!(session.state(), LoopState::TimedOut);
    assert!(session.next_request().unwrap().is_none());
}
