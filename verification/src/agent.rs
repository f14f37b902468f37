//! The iteration state machine of the agent loop.
//!
//! One session drives one conversation, strictly sequentially: request the
//! model with the bounded view, record the cleaned assistant text, record
//! each tool outcome together with its steering message, and decide whether
//! to continue, retry, or stop. The blocking work — the network round-trip
//! and the tool side effects — happens outside the library, which owns
//! every decision in between.

use vstd::prelude::*;

use crate::conversation::bounded_view_of;
use crate::conversation::Conversation;
use crate::conversation::Message;
use crate::conversation::MessageRole;
use crate::errors::CoderError;
use crate::text::trimmed;
use crate::tools::completion_sentinel;
use crate::tools::StatusResponse;
use crate::utils::strip_thinking;
use crate::utils::strip_thinking_spec;

verus! {

/// Where the loop stands: awaiting the next model response, or stopped in
/// one of its terminal states.
#[derive(Debug, Clone, Copy, PartialEq, Eq, Structural)]
pub enum LoopState {
    /// The loop may issue another model request.
    AwaitingModelResponse,
    /// The terminal tool was executed; the session is complete.
    Completed,
    /// The model returned no usable content; the session aborts.
    EmptyResponse,
    /// The wall-clock budget elapsed.
    TimedOut,
}

/// One agent session: its conversation, its loop state, and its wall-clock
/// budget in seconds.
pub struct AgentSession {
    pub conversation: Conversation,
    pub state: LoopState,
    pub timeout_secs: u64,
}

impl AgentSession {
    /// The loop state.
    pub open spec fn state_of(&self) -> LoopState {
        self.state
    }

    /// The wall-clock budget, in seconds.
    pub open spec fn timeout_of(&self) -> u64 {
        self.timeout_secs
    }

    /// The loop has stopped and issues no further requests.
    pub open spec fn is_terminal(&self) -> bool {
        self.state_of() != LoopState::AwaitingModelResponse
    }

    /// A fresh session around a conversation, ready for its first
    /// iteration.
    pub fn new(conversation: Conversation, timeout_secs: u64) -> (s: AgentSession)
        ensures
            s.conversation == conversation,
            s.state_of() == LoopState::AwaitingModelResponse,
            s.timeout_of() == timeout_secs,
    {
        AgentSession { conversation, state: LoopState::AwaitingModelResponse, timeout_secs }
    }

    /// The loop state, for the driver.
    pub fn state(&self) -> (r: LoopState)
        ensures
            r == self.state_of(),
    {
        self.state
    }

    /// The timeout check at the top of an iteration: a session whose
    /// elapsed wall-clock time has reached the budget stops.
    pub fn check_timeout(&mut self, elapsed_secs: u64) -> (timed_out: bool)
        ensures
            timed_out == (elapsed_secs >= old(self).timeout_of()),
            final(self).conversation == old(self).conversation,
            final(self).timeout_of() == old(self).timeout_of(),
            final(self).state_of() == (if timed_out && old(self).state_of()
                == LoopState::AwaitingModelResponse {
                LoopState::TimedOut
            } else {
                old(self).state_of()
            }),
    {
        let timed_out = elapsed_secs >= self.timeout_secs;
        if timed_out && matches!(self.state, LoopState::AwaitingModelResponse) {
            self.state = LoopState::TimedOut;
        }
        timed_out
    }

    /// The payload of the next model request: the bounded view of the
    /// conversation while the loop runs, and nothing once it has stopped —
    /// a terminal session issues no further requests. A running session
    /// without a token budget, or with an empty log, consults no tokenizer
    /// and is owed its payload.
    pub fn next_request(&self) -> (r: Result<Option<Vec<Message>>, CoderError>)
        ensures
            self.is_terminal() ==> r == Ok::<Option<Vec<Message>>, CoderError>(None),
            !self.is_terminal() ==> match r {
                Ok(Some(v)) => match self.conversation.budget() {
                    Some(limit) => v@ == bounded_view_of(self.conversation.msgs(), limit as int),
                    None => v@ == self.conversation.msgs(),
                },
                Ok(None) => false,
                Err(e) => e is TokenizationError,
            },
            !self.is_terminal() && self.conversation.budget() is None ==> r is Ok,
            !self.is_terminal() && self.conversation.msgs().len() == 0 ==> r is Ok,
    {
        match self.state {
            LoopState::AwaitingModelResponse => match self.conversation.to_bounded_view() {
                Ok(v) => Ok(Some(v)),
                Err(e) => Err(e),
            },
            _ => Ok(None),
        }
    }

    /// Records the model's answer. Text that survives the reasoning strip
    /// is trimmed and appended as the assistant message; an absent answer
    /// or mismatched reasoning delimiters end the loop with no usable
    /// content and leave the log unchanged.
    pub fn on_model_response(&mut self, content: Option<&str>) -> (usable: Option<String>)
        requires
            old(self).state_of() == LoopState::AwaitingModelResponse,
            old(self).conversation.wf(),
        ensures
            final(self).timeout_of() == old(self).timeout_of(),
            final(self).conversation.budget() == old(self).conversation.budget(),
            final(self).conversation.wf(),
            match content {
                None => {
                    &&& usable is None
                    &&& final(self).state_of() == LoopState::EmptyResponse
                    &&& final(self).conversation == old(self).conversation
                },
                Some(text) => match strip_thinking_spec(text@) {
                    None => {
                        &&& usable is None
                        &&& final(self).state_of() == LoopState::EmptyResponse
                        &&& final(self).conversation == old(self).conversation
                    },
                    Some(clean) => {
                        &&& usable matches Some(s) && s@ == trimmed(clean)
                        &&& final(self).state_of() == LoopState::AwaitingModelResponse
                        &&& final(self).conversation.msgs().len() == old(
                            self,
                        ).conversation.msgs().len() + 1
                        &&& final(self).conversation.msgs().take(
                            old(self).conversation.msgs().len() as int,
                        ) == old(self).conversation.msgs()
                        &&& ({
                            let m = final(self).conversation.msgs().last();
                            m.role == MessageRole::Assistant && m.content@ == trimmed(clean)
                                && m.tool_call_id is None
                        })
                    },
                },
            },
    {
        let text = match content {
            None => {
                self.state = LoopState::EmptyResponse;
                return None;
            },
            Some(text) => text,
        };
        let cleaned = match strip_thinking(text) {
            None => {
                self.state = LoopState::EmptyResponse;
                return None;
            },
            Some(s) => s,
        };
        let message_text = crate::text::trim_of(cleaned.as_str());
        let reply = message_text.clone();
        let m = Message::text(MessageRole::Assistant, message_text);
        self.conversation.add_message(m);
        proof {
            assert(final(self).conversation.msgs().take(old(self).conversation.msgs().len() as int)
                =~= old(self).conversation.msgs());
        }
        Some(reply)
    }

    /// Records a tool call whose execution failed: the error text is
    /// appended as the correlated tool message, followed by a steering
    /// message asking the model to retry, and the loop continues.
    pub fn on_tool_failure(&mut self, tool_call_id: String, error_text: String)
        requires
            old(self).state_of() == LoopState::AwaitingModelResponse,
            old(self).conversation.wf(),
        ensures
            final(self).state_of() == LoopState::AwaitingModelResponse,
            final(self).timeout_of() == old(self).timeout_of(),
            final(self).conversation.budget() == old(self).conversation.budget(),
            final(self).conversation.wf(),
            final(self).conversation.msgs().len() == old(self).conversation.msgs().len() + 2,
            final(self).conversation.msgs().take(old(self).conversation.msgs().len() as int) == old(
                self,
            ).conversation.msgs(),
            ({
                let m = final(self).conversation.msgs()[old(self).conversation.msgs().len() as int];
                m.role == MessageRole::Tool && m.content == error_text && m.tool_call_id == Some(
                    tool_call_id,
                )
            }),
            ({
                let m = final(self).conversation.msgs().last();
                m.role == MessageRole::User && m.content@
                    == "Something went wrong can you retry it? maybe take a step back."@
                    && m.tool_call_id is None
            }),
    {
        let tool_message = Message::tool_result(error_text, tool_call_id);
        self.conversation.add_message(tool_message);
        let steering = Message::text(
            MessageRole::User,
            "Something went wrong can you retry it? maybe take a step back.".to_owned(),
        );
        self.conversation.add_message(steering);
        proof {
            assert(final(self).conversation.msgs().take(old(self).conversation.msgs().len() as int)
                =~= old(self).conversation.msgs());
        }
    }

    /// Records a successful tool execution. The envelope is appended in
    /// its wire form as the correlated tool message. An envelope carrying
    /// the completion sentinel completes the session with no further
    /// messages; any other is followed by a steering message — an explicit
    /// retry request when the envelope asks for one, the default
    /// instruction to proceed otherwise.
    pub fn on_tool_result(&mut self, tool_call_id: String, envelope: &StatusResponse) -> (completed:
        bool)
        requires
            old(self).state_of() == LoopState::AwaitingModelResponse,
            old(self).conversation.wf(),
        ensures
            completed == (envelope.message_view() == Some(completion_sentinel())),
            final(self).timeout_of() == old(self).timeout_of(),
            final(self).conversation.budget() == old(self).conversation.budget(),
            final(self).conversation.wf(),
            final(self).state_of() == (if completed {
                LoopState::Completed
            } else {
                LoopState::AwaitingModelResponse
            }),
            final(self).conversation.msgs().len() == old(self).conversation.msgs().len() + (
            if completed {
                1int
            } else {
                2
            }),
            final(self).conversation.msgs().take(old(self).conversation.msgs().len() as int) == old(
                self,
            ).conversation.msgs(),
            ({
                let m = final(self).conversation.msgs()[old(self).conversation.msgs().len() as int];
                m.role == MessageRole::Tool && m.content@ == envelope.json_of() && m.tool_call_id
                    == Some(tool_call_id)
            }),
            !completed ==> ({
                let m = final(self).conversation.msgs().last();
                m.role == MessageRole::User && m.content@ == (if envelope.retry {
                    "Something went wrong can you retry it?"@
                } else {
                    "Let's proceed to the next step."@
                }) && m.tool_call_id is None
            }),
    {
        let content = envelope.to_json();
        let tool_message = Message::tool_result(content, tool_call_id);
        self.conversation.add_message(tool_message);
        let completed = match &envelope.message {
            Some(m) => crate::text::str_eq(m.as_str(), "Task completed"),
            None => false,
        };
        if completed {
            self.state = LoopState::Completed;
            proof {
                assert(final(self).conversation.msgs().take(
                    old(self).conversation.msgs().len() as int,
                ) =~= old(self).conversation.msgs());
            }
            return true;
        }
        let steering_text = if envelope.retry {
            "Something went wrong can you retry it?".to_owned()
        } else {
            "Let's proceed to the next step.".to_owned()
        };
        let steering = Message::text(MessageRole::User, steering_text);
        self.conversation.add_message(steering);
        proof {
            assert(final(self).conversation.msgs().take(old(self).conversation.msgs().len() as int)
                =~= old(self).conversation.msgs());
        }
        false
    }
}

} // verus!
