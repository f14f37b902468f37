//! The conversation model: an append-only message log with metadata, and
//! the token-bounded view of it that is actually transmitted to the
//! inference service.
//!
//! The bounded view walks the log from the most recent message backwards,
//! accumulating token counts, and stops — excluding the current message —
//! as soon as adding one would exceed the budget. The result is therefore
//! always a chronologically-ordered suffix of the log whose total token
//! count stays within the budget; without a budget the view is the whole
//! log. No message is pinned: the system instructions message is subject
//! to the same eviction rule as every other message, so a long enough tail
//! of newer messages pushes it out of the transmitted view.

use vstd::prelude::*;

use crate::errors::CoderError;

verus! {

/// Who authored a message.
#[derive(Debug, Clone, Copy, PartialEq, Eq, Structural)]
pub enum MessageRole {
    System,
    User,
    Assistant,
    Tool,
}

/// One entry of the conversation log, immutable once appended. The
/// correlation identifier is present exactly on tool-result messages.
#[derive(Debug)]
pub struct Message {
    pub role: MessageRole,
    pub content: String,
    pub tool_call_id: Option<String>,
}

impl Message {
    /// The correlation invariant: a tool-call identifier is carried if and
    /// only if the message is a tool result.
    pub open spec fn wf(&self) -> bool {
        self.tool_call_id is Some <==> self.role is Tool
    }

    /// A plain message of any role but the tool role.
    pub fn text(role: MessageRole, content: String) -> (m: Message)
        requires
            role != MessageRole::Tool,
        ensures
            m.role == role,
            m.content == content,
            m.tool_call_id is None,
            m.wf(),
    {
        Message { role, content, tool_call_id: None }
    }

    /// A tool-result message correlated with the call that requested it.
    pub fn tool_result(content: String, tool_call_id: String) -> (m: Message)
        ensures
            m.role == MessageRole::Tool,
            m.content == content,
            m.tool_call_id == Some(tool_call_id),
            m.wf(),
    {
        Message { role: MessageRole::Tool, content, tool_call_id: Some(tool_call_id) }
    }
}

/// An exact copy of a message.
fn clone_message(m: &Message) -> (r: Message)
    ensures
        r == *m,
{
    Message {
        role: m.role,
        content: m.content.clone(),
        tool_call_id: match &m.tool_call_id {
            Some(s) => Some(s.clone()),
            None => None,
        },
    }
}

// ---------------------------------------------------------------------------
// Token counting
// ---------------------------------------------------------------------------

/// The number of tokens the tokenizer assigns to a text. The tokenizer is
/// an external dependency treated as a pure function: the count depends on
/// the characters alone.
pub uninterp spec fn token_count_of(s: Seq<char>) -> nat;

/// Relies on tiktoken's `o200k_base` tokenizer and `CoreBPE::encode` with
/// every special token allowed: building the tokenizer reads data compiled
/// into the crate, and the encoding is a deterministic function of the
/// text, so a successful count is a function of the characters alone. A
/// tokenizer that fails to build, or a text on which its tokenization
/// regex gives up, surfaces as a tokenization error.
#[verifier::external_body]
fn count_tokens(text: &str) -> (r: Result<usize, CoderError>)
    ensures
        r matches Ok(n) ==> n as nat == token_count_of(text@),
        r matches Err(e) ==> e is TokenizationError,
{
    let bpe = match tiktoken_rs::o200k_base() {
        Ok(bpe) => bpe,
        Err(e) => return Err(CoderError::TokenizationError(e.to_string())),
    };
    match bpe.encode(text, &bpe.special_tokens()) {
        Ok((tokens, _)) => Ok(tokens.len()),
        Err(e) => Err(CoderError::TokenizationError(e.to_string())),
    }
}

/// The token count of one message.
pub open spec fn message_tokens(m: Message) -> nat {
    token_count_of(m.content@)
}

/// The token counts of a message log, in log order.
pub open spec fn token_counts(msgs: Seq<Message>) -> Seq<int> {
    msgs.map_values(|m: Message| message_tokens(m) as int)
}

/// The widths of a sequence of usize counts.
pub open spec fn counts_int(cs: Seq<usize>) -> Seq<int> {
    cs.map_values(|c: usize| c as int)
}

/// The sum of a sequence of counts.
pub open spec fn counts_total(counts: Seq<int>) -> int
    decreases counts.len(),
{
    if counts.len() == 0 {
        0
    } else {
        counts_total(counts.drop_last()) + counts.last()
    }
}

// ---------------------------------------------------------------------------
// The bounded cut
// ---------------------------------------------------------------------------

/// How many entries the budget admits, walking costs from the most recent
/// backwards and stopping at the first entry that would exceed it.
pub open spec fn kept_len(counts: Seq<int>, budget: int) -> nat
    decreases counts.len(),
{
    if counts.len() == 0 {
        0
    } else if counts.last() > budget {
        0
    } else {
        1 + kept_len(counts.drop_last(), budget - counts.last())
    }
}

/// The budget never admits more entries than there are.
pub proof fn lemma_kept_len_bound(counts: Seq<int>, budget: int)
    ensures
        kept_len(counts, budget) <= counts.len(),
    decreases counts.len(),
{
    if counts.len() > 0 && counts.last() <= budget {
        lemma_kept_len_bound(counts.drop_last(), budget - counts.last());
    }
}

/// The admitted suffix of the costs stays within the budget.
pub proof fn lemma_kept_total_within(counts: Seq<int>, budget: int)
    requires
        budget >= 0,
    ensures
        counts_total(counts.skip(counts.len() - kept_len(counts, budget))) <= budget,
    decreases counts.len(),
{
    lemma_kept_len_bound(counts, budget);
    if counts.len() == 0 {
        assert(counts.skip(0) =~= counts);
    } else if counts.last() > budget {
        assert(counts.skip(counts.len() as int) =~= Seq::<int>::empty());
    } else {
        let rest = counts.drop_last();
        let sub_budget = budget - counts.last();
        lemma_kept_len_bound(rest, sub_budget);
        lemma_kept_total_within(rest, sub_budget);
        let kept = kept_len(counts, budget);
        let tail = counts.skip(counts.len() - kept);
        assert(tail.drop_last() =~= rest.skip(rest.len() - kept_len(rest, sub_budget)));
        assert(counts_total(tail) == counts_total(tail.drop_last()) + counts.last());
    }
}

/// The token-bounded view of a message log: the longest suffix the budget
/// admits, in chronological order.
pub open spec fn bounded_view_of(msgs: Seq<Message>, budget: int) -> Seq<Message> {
    msgs.skip(msgs.len() - kept_len(token_counts(msgs), budget))
}

/// Boundedness: for any nonnegative budget, the total token count of the
/// bounded view never exceeds the budget.
pub proof fn lemma_bounded_view_within_budget(msgs: Seq<Message>, budget: int)
    requires
        budget >= 0,
    ensures
        counts_total(token_counts(bounded_view_of(msgs, budget))) <= budget,
{
    let counts = token_counts(msgs);
    let kept = kept_len(counts, budget);
    lemma_kept_len_bound(counts, budget);
    lemma_kept_total_within(counts, budget);
    assert(token_counts(bounded_view_of(msgs, budget)) =~= counts.skip(msgs.len() - kept));
}

/// Suffix property: the bounded view is a contiguous suffix of the log —
/// it never drops a message from the middle while keeping a later one.
pub proof fn lemma_bounded_view_is_suffix(msgs: Seq<Message>, budget: int)
    ensures
        exists|k: int|
            0 <= k <= msgs.len() && bounded_view_of(msgs, budget) == #[trigger] msgs.skip(k),
{
    let counts = token_counts(msgs);
    lemma_kept_len_bound(counts, budget);
    let k = msgs.len() - kept_len(counts, budget);
    assert(bounded_view_of(msgs, budget) == msgs.skip(k));
}

/// Computes the longest suffix of the messages whose given token costs fit
/// within the limit: the suffix is cut where walking the costs from the
/// most recent backwards would first exceed the limit.
pub fn bounded_suffix(messages: &Vec<Message>, counts: &Vec<usize>, limit: usize) -> (r: Vec<
    Message,
>)
    requires
        counts@.len() == messages@.len(),
    ensures
        r@ == messages@.skip(
            messages@.len() - kept_len(counts_int(counts@), limit as int) as int,
        ),
{
    let ghost cs = counts_int(counts@);
    let n = messages.len();
    let mut i: usize = n;
    let mut used: usize = 0;
    proof {
        assert(cs.take(n as int) =~= cs);
        assert(kept_len(cs, limit as int) == (n - i) + kept_len(
            cs.take(i as int),
            limit as int - used,
        ));
    }
    while i > 0
        invariant
            i <= n == messages@.len(),
            counts@.len() == messages@.len(),
            cs == counts_int(counts@),
            used <= limit,
            kept_len(cs, limit as int) == (n - i) + kept_len(cs.take(i as int), limit as int - used),
        ensures
            kept_len(cs, limit as int) == n - i,
        decreases i,
    {
        let c = counts[i - 1];
        if c > limit - used {
            proof {
                assert(cs.take(i as int).last() == c as int);
                assert(kept_len(cs.take(i as int), limit as int - used) == 0);
            }
            break ;
        }
        proof {
            assert(cs.take(i as int).last() == c as int);
            assert(cs.take(i as int).drop_last() =~= cs.take(i - 1));
            assert(kept_len(cs.take(i as int), limit as int - used) == 1 + kept_len(
                cs.take(i - 1),
                limit as int - used - c,
            ));
        }
        used = used + c;
        i = i - 1;
    }
    let mut out: Vec<Message> = Vec::new();
    let mut j: usize = i;
    while j < n
        invariant
            i <= j <= n == messages@.len(),
            out@ == messages@.subrange(i as int, j as int),
        decreases n - j,
    {
        let m = clone_message(&messages[j]);
        out.push(m);
        assert(out@ =~= messages@.subrange(i as int, j + 1));
        j = j + 1;
    }
    proof {
        assert(out@ =~= messages@.skip(i as int));
    }
    out
}

// ---------------------------------------------------------------------------
// The conversation
// ---------------------------------------------------------------------------

/// Session-wide metadata of a conversation.
struct ConversationMetadata {
    repository: String,
    model: String,
    provider: String,
    files_reviewed: Vec<String>,
    max_tokens: Option<usize>,
}

/// Relies on uuid's `new_v4` and its hyphenated display form, which is
/// documented to be 36 characters. The identifier is random, so nothing
/// more is promised of it.
#[verifier::external_body]
fn fresh_conversation_id() -> (r: String)
    ensures
        r@.len() == 36,
{
    uuid::Uuid::new_v4().to_string()
}

/// Relies on std::time::SystemTime for the creation timestamp, in seconds
/// since the epoch. The clock decides the value.
#[verifier::external_body]
fn now_unix_seconds() -> u64 {
    match std::time::SystemTime::now().duration_since(std::time::SystemTime::UNIX_EPOCH) {
        Ok(d) => d.as_secs(),
        Err(_) => 0,
    }
}

/// An ordered, append-only message log plus metadata. Created once per
/// session; mutated only by appends; never persisted.
pub struct Conversation {
    id: String,
    created_at: u64,
    messages: Vec<Message>,
    metadata: ConversationMetadata,
}

impl Conversation {
    /// The message log, in chronological order.
    pub closed spec fn msgs(&self) -> Seq<Message> {
        self.messages@
    }

    /// The configured token budget, if any.
    pub closed spec fn budget(&self) -> Option<usize> {
        self.metadata.max_tokens
    }

    /// The model identifier.
    pub closed spec fn model_of(&self) -> Seq<char> {
        self.metadata.model@
    }

    /// The provider identifier.
    pub closed spec fn provider_of(&self) -> Seq<char> {
        self.metadata.provider@
    }

    /// The workspace the session works on.
    pub closed spec fn repository_of(&self) -> Seq<char> {
        self.metadata.repository@
    }

    /// Every message of the log carries its correlation invariant.
    pub open spec fn wf(&self) -> bool {
        forall|i: int| 0 <= i < self.msgs().len() ==> #[trigger] self.msgs()[i].wf()
    }

    /// A fresh conversation with an empty log. The workspace path is handed
    /// in by the caller, which owns process-environment access.
    pub fn new(model: String, provider: String, max_tokens: Option<usize>, repository: String) -> (c:
        Conversation)
        ensures
            c.msgs().len() == 0,
            c.budget() == max_tokens,
            c.model_of() == model@,
            c.provider_of() == provider@,
            c.repository_of() == repository@,
            c.wf(),
    {
        Conversation {
            id: fresh_conversation_id(),
            created_at: now_unix_seconds(),
            messages: Vec::new(),
            metadata: ConversationMetadata {
                repository,
                model,
                provider,
                files_reviewed: Vec::new(),
                max_tokens,
            },
        }
    }

    /// Appends a message to the log. The log is never edited, only
    /// extended, and the metadata does not change.
    pub fn add_message(&mut self, message: Message)
        requires
            message.wf(),
        ensures
            final(self).msgs() == old(self).msgs().push(message),
            final(self).budget() == old(self).budget(),
            final(self).model_of() == old(self).model_of(),
            final(self).provider_of() == old(self).provider_of(),
            final(self).repository_of() == old(self).repository_of(),
            old(self).wf() ==> final(self).wf(),
    {
        self.messages.push(message);
        proof {
            if old(self).wf() {
                assert forall|i: int| 0 <= i < self.msgs().len() implies #[trigger] self.msgs()[i].wf() by {
                    if i < old(self).msgs().len() {
                        assert(old(self).msgs()[i].wf());
                    }
                }
            }
        }
    }

    /// The number of messages in the log.
    pub fn message_count(&self) -> (r: usize)
        ensures
            r == self.msgs().len(),
    {
        self.messages.len()
    }

    /// Hands out one message of the log.
    pub fn get_message(&self, i: usize) -> (r: &Message)
        requires
            i < self.msgs().len(),
        ensures
            *r == self.msgs()[i as int],
    {
        &self.messages[i]
    }

    /// The total token count of the whole log. Fails only when the
    /// tokenizer fails on some message or the total exceeds the machine's
    /// range; an empty log consults no tokenizer and cannot fail.
    pub fn get_current_tokens(&self) -> (r: Result<usize, CoderError>)
        ensures
            r matches Ok(n) ==> n as int == counts_total(token_counts(self.msgs())),
            r matches Err(e) ==> e is TokenizationError,
            self.msgs().len() == 0 ==> r is Ok,
    {
        let n = self.messages.len();
        let mut total: usize = 0;
        let mut i: usize = 0;
        proof {
            assert(token_counts(self.msgs()).take(0) =~= Seq::<int>::empty());
        }
        while i < n
            invariant
                i <= n == self.msgs().len(),
                total as int == counts_total(token_counts(self.msgs()).take(i as int)),
            decreases n - i,
        {
            let c = match count_tokens(self.messages[i].content.as_str()) {
                Ok(c) => c,
                Err(e) => {
                    return Err(e);
                },
            };
            let next = match total.checked_add(c) {
                Some(next) => next,
                None => {
                    return Err(
                        CoderError::TokenizationError(
                            "token total exceeds the machine's range".to_owned(),
                        ),
                    );
                },
            };
            proof {
                let ghost counts = token_counts(self.msgs());
                assert(counts.take(i + 1).drop_last() =~= counts.take(i as int));
                assert(counts.take(i + 1).last() == c as int);
            }
            total = next;
            i = i + 1;
        }
        proof {
            assert(token_counts(self.msgs()).take(n as int) =~= token_counts(self.msgs()));
        }
        Ok(total)
    }

    /// The token-bounded view of the log: all of it when no budget is set
    /// (identity, same order), otherwise the longest suffix of the log that
    /// fits the budget. A tokenizer failure aborts the request rather than
    /// transmitting an incorrectly bounded context; without a budget, or on
    /// an empty log, no tokenizer is consulted and the view is owed.
    pub fn to_bounded_view(&self) -> (r: Result<Vec<Message>, CoderError>)
        ensures
            match r {
                Ok(v) => match self.budget() {
                    Some(limit) => v@ == bounded_view_of(self.msgs(), limit as int),
                    None => v@ == self.msgs(),
                },
                Err(e) => e is TokenizationError,
            },
            self.budget() is None ==> r is Ok,
            self.msgs().len() == 0 ==> r is Ok,
    {
        let limit = match self.metadata.max_tokens {
            None => {
                let n = self.messages.len();
                let mut out: Vec<Message> = Vec::new();
                let mut j: usize = 0;
                while j < n
                    invariant
                        j <= n == self.msgs().len(),
                        out@ == self.msgs().take(j as int),
                    decreases n - j,
                {
                    let m = clone_message(&self.messages[j]);
                    out.push(m);
                    assert(out@ =~= self.msgs().take(j + 1));
                    j = j + 1;
                }
                proof {
                    assert(out@ =~= self.msgs());
                }
                return Ok(out);
            },
            Some(limit) => limit,
        };
        let n = self.messages.len();
        let mut counts: Vec<usize> = Vec::new();
        let mut i: usize = 0;
        while i < n
            invariant
                i <= n == self.msgs().len(),
                self.budget() == Some(limit),
                counts@.len() == i,
                forall|j: int|
                    0 <= j < i ==> #[trigger] counts@[j] as int == message_tokens(
                        self.msgs()[j],
                    ) as int,
            decreases n - i,
        {
            let c = match count_tokens(self.messages[i].content.as_str()) {
                Ok(c) => c,
                Err(e) => {
                    return Err(e);
                },
            };
            counts.push(c);
            i = i + 1;
        }
        proof {
            assert(counts_int(counts@) =~= token_counts(self.msgs()));
        }
        let v = bounded_suffix(&self.messages, &counts, limit);
        Ok(v)
    }
}

} // verus!
