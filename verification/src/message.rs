//! Conversation messages: the ordered dialogue state, its approximate size
//! metric, and the eviction policy that fits it to a token budget.

use vstd::prelude::*;
use vstd::string::StringExecFns;
use vstd::utf8::encode_utf8;

use crate::json::JsonValue;
use crate::outside::now_micros;
use crate::sequences::lemma_subseq_remove;
use crate::sequences::lemma_subseq_refl;
use crate::sequences::lemma_subseq_trans;
use crate::sequences::subseq_of;

verus! {

/// Role of a message sender.
#[derive(Clone, Debug, PartialEq, Eq, Structural)]
pub enum Role {
    /// System prompt/instructions
    System,
    /// User input
    User,
    /// Assistant (LLM) response
    Assistant,
    /// Tool result (injected as context)
    Tool,
}

impl Role {
    /// The lowercase wire name of the role.
    pub open spec fn spec_as_str(&self) -> Seq<char> {
        match self {
            Role::System => "system"@,
            Role::User => "user"@,
            Role::Assistant => "assistant"@,
            Role::Tool => "tool"@,
        }
    }

    /// The lowercase wire name of the role.
    pub fn as_str(&self) -> (r: &'static str)
        ensures
            r@ == self.spec_as_str(),
    {
        match self {
            Role::System => "system",
            Role::User => "user",
            Role::Assistant => "assistant",
            Role::Tool => "tool",
        }
    }
}

/// Additional message metadata.
#[derive(Clone, Debug)]
pub struct MessageMetadata {
    /// Token count (if known)
    pub tokens: Option<u32>,
    /// Tool call ID (for tool messages)
    pub tool_call_id: Option<String>,
    /// Model that generated this (for assistant messages)
    pub model: Option<String>,
    /// Custom key-value pairs (keys unique)
    pub extra: Vec<(String, JsonValue)>,
}

impl Default for MessageMetadata {
    /// Empty metadata.
    fn default() -> (r: Self)
        ensures
            r.tokens is None,
            r.tool_call_id is None,
            r.model is None,
            r.extra@.len() == 0,
    {
        MessageMetadata { tokens: None, tool_call_id: None, model: None, extra: Vec::new() }
    }
}

/// A single message in a conversation.
///
/// The timestamp is microseconds since the Unix epoch.
#[derive(Clone, Debug)]
pub struct Message {
    /// Message role
    pub role: Role,
    /// Text content
    pub content: String,
    /// Optional name (for multi-user scenarios)
    pub name: Option<String>,
    /// Timestamp (microseconds since the Unix epoch)
    pub timestamp: i64,
    /// Optional metadata
    pub metadata: Option<MessageMetadata>,
}

/// Default conversation context budget, in estimated tokens.
pub fn default_max_context() -> (r: u32)
    ensures
        r == 8192,
{
    8192
}

/// The subsequence of system messages, in order.
pub open spec fn spec_system_only(msgs: Seq<Message>) -> Seq<Message> {
    msgs.filter(|m: Message| m.role is System)
}

/// Removing a non-system message leaves the system messages untouched.
proof fn lemma_system_only_remove(msgs: Seq<Message>, i: int)
    requires
        0 <= i < msgs.len(),
        !(msgs[i].role is System),
    ensures
        spec_system_only(msgs.remove(i)) == spec_system_only(msgs),
    decreases msgs.len(),
{
    reveal_with_fuel(Seq::filter, 2);
    if i == msgs.len() - 1 {
        assert(msgs.remove(i) =~= msgs.drop_last());
    } else {
        assert(msgs.remove(i).drop_last() =~= msgs.drop_last().remove(i));
        assert(msgs.remove(i).last() == msgs.last());
        lemma_system_only_remove(msgs.drop_last(), i);
    }
}

/// The estimated token count of one message: its byte length divided by
/// four, plus a fixed overhead of four for the role, saturated at
/// `u32::MAX`.
pub open spec fn spec_message_estimate(m: Message) -> int {
    let t = (encode_utf8(m.content@).len() as usize) as int / 4 + 4;
    if t > u32::MAX {
        u32::MAX as int
    } else {
        t
    }
}

/// Addition saturated at `u32::MAX`.
pub open spec fn spec_sat_add_u32(a: int, b: int) -> int {
    if a + b > u32::MAX {
        u32::MAX as int
    } else {
        a + b
    }
}

/// The estimated token count of a whole message sequence: the saturating
/// sum of the per-message estimates.
pub open spec fn spec_conversation_estimate(msgs: Seq<Message>) -> int
    decreases msgs.len(),
{
    if msgs.len() == 0 {
        0
    } else {
        spec_sat_add_u32(
            spec_conversation_estimate(msgs.drop_last()),
            spec_message_estimate(msgs.last()),
        )
    }
}

/// The conversation estimate stays within `u32` range.
pub proof fn lemma_conversation_estimate_bounds(msgs: Seq<Message>)
    ensures
        0 <= spec_conversation_estimate(msgs) <= u32::MAX,
    decreases msgs.len(),
{
    if msgs.len() > 0 {
        lemma_conversation_estimate_bounds(msgs.drop_last());
    }
}

/// Pushing a message never decreases the conversation estimate.
pub proof fn lemma_conversation_estimate_monotone(msgs: Seq<Message>, m: Message)
    ensures
        spec_conversation_estimate(msgs.push(m)) >= spec_conversation_estimate(msgs),
{
    lemma_conversation_estimate_bounds(msgs);
    assert(msgs.push(m).drop_last() =~= msgs);
    assert(msgs.push(m).last() == m);
}

impl Message {
    /// Create a new message, stamped with the current time.
    pub fn new(role: Role, content: &str) -> (r: Self)
        ensures
            r.role == role,
            r.content@ == content@,
            r.name is None,
            r.metadata is None,
    {
        Message {
            role,
            content: String::from_str(content),
            name: None,
            timestamp: now_micros(),
            metadata: None,
        }
    }

    /// Create a system message.
    pub fn system(content: &str) -> (r: Self)
        ensures
            r.role is System,
            r.content@ == content@,
            r.name is None,
            r.metadata is None,
    {
        Self::new(Role::System, content)
    }

    /// Create a user message.
    pub fn user(content: &str) -> (r: Self)
        ensures
            r.role is User,
            r.content@ == content@,
            r.name is None,
            r.metadata is None,
    {
        Self::new(Role::User, content)
    }

    /// Create an assistant message.
    pub fn assistant(content: &str) -> (r: Self)
        ensures
            r.role is Assistant,
            r.content@ == content@,
            r.name is None,
            r.metadata is None,
    {
        Self::new(Role::Assistant, content)
    }

    /// Create a tool result message; the call id, when given, is recorded
    /// in the metadata.
    pub fn tool(content: &str, tool_call_id: Option<String>) -> (r: Self)
        ensures
            r.role is Tool,
            r.content@ == content@,
            r.name is None,
            r.metadata is Some <==> tool_call_id is Some,
            r.metadata matches Some(md) ==> {
                &&& md.tool_call_id == tool_call_id
                &&& md.tokens is None
                &&& md.model is None
                &&& md.extra@.len() == 0
            },
    {
        let mut msg = Self::new(Role::Tool, content);
        if tool_call_id.is_some() {
            let mut md = MessageMetadata::default();
            md.tool_call_id = tool_call_id;
            msg.metadata = Some(md);
        }
        msg
    }

    /// Add a name to the message.
    pub fn with_name(self, name: &str) -> (r: Self)
        ensures
            r.role == self.role,
            r.content == self.content,
            r.timestamp == self.timestamp,
            r.metadata == self.metadata,
            r.name matches Some(n) && n@ == name@,
    {
        Message { name: Some(String::from_str(name)), ..self }
    }

    /// Estimate the token count of this message: roughly four characters
    /// per token, plus a fixed overhead for the role.
    pub fn estimate_tokens(&self) -> (r: u32)
        ensures
            r as int == spec_message_estimate(*self),
    {
        let len = self.content.as_str().len();
        let q = len / 4;
        if q > (u32::MAX - 4) as usize {
            u32::MAX
        } else {
            (q as u32) + 4
        }
    }
}

/// Conversation history: an ordered message sequence plus a token budget.
///
/// The view of a conversation is its message sequence; the budget is
/// [`Conversation::spec_budget`].
#[derive(Clone, Debug)]
pub struct Conversation {
    messages: Vec<Message>,
    /// Maximum context length (in estimated tokens)
    max_context_tokens: u32,
}

impl View for Conversation {
    type V = Seq<Message>;

    closed spec fn view(&self) -> Seq<Message> {
        self.messages@
    }
}

impl Default for Conversation {
    /// An empty conversation with the default context budget.
    fn default() -> (r: Self)
        ensures
            r@.len() == 0,
            r.spec_budget() == 8192,
    {
        Conversation { messages: Vec::new(), max_context_tokens: default_max_context() }
    }
}

impl Conversation {
    /// The maximum context length, in estimated tokens.
    pub closed spec fn spec_budget(&self) -> u32 {
        self.max_context_tokens
    }

    /// An empty conversation with the default context budget.
    pub fn new() -> (r: Self)
        ensures
            r@.len() == 0,
            r.spec_budget() == 8192,
    {
        Self::default()
    }

    /// A conversation that opens with a system message.
    pub fn with_system_prompt(prompt: &str) -> (r: Self)
        ensures
            r@.len() == 1,
            r@[0].role is System,
            r@[0].content@ == prompt@,
            r.spec_budget() == 8192,
    {
        let mut conv = Self::new();
        conv.push(Message::system(prompt));
        conv
    }

    /// Add a message at the end.
    pub fn push(&mut self, message: Message)
        ensures
            final(self)@ == old(self)@.push(message),
            final(self).spec_budget() == old(self).spec_budget(),
    {
        self.messages.push(message);
    }

    /// All messages, in dialogue order.
    pub fn messages(&self) -> (r: &Vec<Message>)
        ensures
            r@ == self@,
    {
        &self.messages
    }

    /// The messages as a mutable vector.
    pub fn messages_mut(&mut self) -> (r: &mut Vec<Message>)
        ensures
            r@ == old(self)@,
            final(self)@ == final(r)@,
            final(self).spec_budget() == old(self).spec_budget(),
    {
        &mut self.messages
    }

    /// The last message, if any.
    pub fn last(&self) -> (r: Option<&Message>)
        ensures
            r is Some <==> self@.len() > 0,
            r matches Some(m) ==> *m == self@.last(),
    {
        if self.messages.len() == 0 {
            None
        } else {
            Some(&self.messages[self.messages.len() - 1])
        }
    }

    /// Drop everything except system messages.
    pub fn clear_history(&mut self)
        ensures
            final(self)@ == spec_system_only(old(self)@),
            final(self).spec_budget() == old(self).spec_budget(),
    {
        let ghost orig = self@;
        let ghost n = orig.len();
        let mut i: usize = 0;
        let ghost mut j: int = 0;
        proof {
            assert(orig.take(0).len() == 0);
            assert(spec_system_only(orig.take(0)) =~= Seq::<Message>::empty());
            assert(self@ =~= spec_system_only(orig.take(0)) + orig.skip(0));
        }
        loop
            invariant
                0 <= j <= n,
                n == orig.len(),
                orig == old(self)@,
                i as int == spec_system_only(orig.take(j)).len(),
                self@ =~= spec_system_only(orig.take(j)) + orig.skip(j),
                self.spec_budget() == old(self).spec_budget(),
            decreases n - j,
        {
            if i >= self.messages.len() {
                proof {
                    assert(orig.skip(j).len() == 0);
                    assert(j == n);
                    assert(orig.take(j) =~= orig);
                    assert(self@ =~= spec_system_only(orig));
                }
                return ;
            }
            let ghost cur = self@;
            proof {
                assert(cur[i as int] == orig.skip(j)[0]);
                assert(orig.skip(j)[0] == orig[j]);
                assert(orig.take(j + 1).drop_last() =~= orig.take(j));
                assert(orig.take(j + 1).last() == orig[j]);
                reveal_with_fuel(Seq::filter, 2);
                assert(orig.skip(j).drop_first() =~= orig.skip(j + 1));
            }
            let sys = match self.messages[i].role {
                Role::System => true,
                _ => false,
            };
            if sys {
                proof {
                    assert(spec_system_only(orig.take(j + 1)) =~= spec_system_only(
                        orig.take(j),
                    ).push(orig[j]));
                    assert(cur =~= spec_system_only(orig.take(j + 1)) + orig.skip(j + 1));
                }
                i = i + 1;
            } else {
                self.messages.remove(i);
                proof {
                    assert(spec_system_only(orig.take(j + 1)) =~= spec_system_only(
                        orig.take(j),
                    ));
                    assert(self@ =~= cur.remove(i as int));
                    assert(self@ =~= spec_system_only(orig.take(j + 1)) + orig.skip(j + 1));
                }
            }
            proof {
                j = j + 1;
            }
        }
    }

    /// Estimate the total token count of the conversation.
    pub fn estimate_tokens(&self) -> (r: u32)
        ensures
            r as int == spec_conversation_estimate(self@),
    {
        let n = self.messages.len();
        let mut total: u32 = 0;
        let mut i: usize = 0;
        proof {
            assert(self@.take(0).len() == 0);
        }
        while i < n
            invariant
                n == self@.len(),
                0 <= i <= n,
                total as int == spec_conversation_estimate(self@.take(i as int)),
            decreases n - i,
        {
            let t = self.messages[i].estimate_tokens();
            proof {
                assert(self@.take(i + 1).drop_last() =~= self@.take(i as int));
                assert(self@.take(i + 1).last() == self@[i as int]);
            }
            total = if total > u32::MAX - t {
                u32::MAX
            } else {
                total + t
            };
            i = i + 1;
        }
        proof {
            assert(self@.take(n as int) =~= self@);
        }
        total
    }

    /// Truncate to fit within the token budget, preserving the leading
    /// system message and the most recent message.
    ///
    /// While the estimate exceeds the budget and more than two messages
    /// remain, the earliest non-system message that is not the final
    /// message is removed.  This is a best-effort cap: the conversation may
    /// stay over budget rather than lose a required message.
    pub fn truncate_to_fit(&mut self)
        ensures
            final(self).spec_budget() == old(self).spec_budget(),
            subseq_of(final(self)@, old(self)@),
            old(self)@.len() > 0 ==> final(self)@.len() > 0 && final(self)@.last() == old(self)@.last(),
            old(self)@.len() > 0 && old(self)@[0].role is System ==> final(self)@[0] == old(self)@[0],
            spec_system_only(final(self)@) == spec_system_only(old(self)@),
            spec_conversation_estimate(old(self)@) <= old(self).spec_budget() ==> final(self)@
                == old(self)@,
            spec_conversation_estimate(final(self)@) <= final(self).spec_budget() || final(self)@.len() <= 2 || (forall|i: int|
                0 <= i < final(self)@.len() - 1 ==> final(self)@[i].role is System),
    {
        proof {
            lemma_subseq_refl(self@);
        }
        loop
            invariant
                self.spec_budget() == old(self).spec_budget(),
                spec_system_only(self@) == spec_system_only(old(self)@),
                subseq_of(self@, old(self)@),
                old(self)@.len() > 0 ==> self@.len() > 0 && self@.last() == old(self)@.last(),
                old(self)@.len() > 0 && old(self)@[0].role is System ==> self@.len() > 0
                    && self@[0] == old(self)@[0],
                spec_conversation_estimate(old(self)@) <= old(self).spec_budget() ==> self@
                    == old(self)@,
            decreases self@.len(),
        {
            let est = self.estimate_tokens();
            if est <= self.max_context_tokens || self.messages.len() <= 2 {
                return ;
            }
            // Find the earliest non-system message.
            let n = self.messages.len();
            let mut pos: usize = 0;
            let mut found = false;
            while pos < n && !found
                invariant
                    n == self@.len(),
                    0 <= pos <= n,
                    !found ==> forall|j: int| 0 <= j < pos ==> self@[j].role is System,
                    found ==> pos < n && !(self@[pos as int].role is System) && forall|j: int|
                        0 <= j < pos ==> self@[j].role is System,
                decreases n - pos + (if found { 0int } else { 1int }),
            {
                let sys = match self.messages[pos].role {
                    Role::System => true,
                    _ => false,
                };
                if !sys {
                    found = true;
                } else {
                    pos = pos + 1;
                }
            }
            if found && pos < n - 1 {
                let ghost before = self@;
                self.messages.remove(pos);
                proof {
                    lemma_system_only_remove(before, pos as int);
                    lemma_subseq_remove(before, pos as int);
                    lemma_subseq_trans(self@, before, old(self)@);
                    assert(self@.last() == before.last());
                    if before[0].role is System {
                        assert(self@[0] == before[0]);
                    }
                }
            } else {
                proof {
                    if !found {
                        assert(forall|j: int| 0 <= j < self@.len() - 1 ==> self@[j].role
                            is System);
                    } else {
                        assert(pos == n - 1);
                        assert(forall|j: int| 0 <= j < self@.len() - 1 ==> self@[j].role
                            is System);
                    }
                }
                return ;
            }
        }
    }

    /// Number of messages.
    pub fn len(&self) -> (r: usize)
        ensures
            r == self@.len(),
    {
        self.messages.len()
    }

    /// Whether the conversation holds no messages.
    pub fn is_empty(&self) -> (r: bool)
        ensures
            r == (self@.len() == 0),
    {
        self.messages.len() == 0
    }
}

} // verus!
