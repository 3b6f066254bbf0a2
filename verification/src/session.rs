//! Sessions: a conversation plus identity, metadata, and activity
//! bookkeeping.  Persistence lives with the hosting application.

use vstd::prelude::*;
use vstd::string::StrSliceExecFns;
use vstd::string::StringExecFns;
use vstd::utf8::encode_utf8;
use vstd::utf8::is_ascii_chars;

use crate::json::JsonValue;
use crate::message::Conversation;
use crate::message::Message;
use crate::message::Role;
use crate::outside::now_micros;
use crate::outside::uuid_hyphenated;

verus! {

/// Unique session identifier.
#[derive(Clone, Debug, PartialEq, Eq, Hash)]
pub struct SessionId(String);

impl SessionId {
    /// The identifier's text.
    pub closed spec fn spec_str(&self) -> Seq<char> {
        self.0@
    }

    /// A fresh random identifier in hyphenated form: 36 ASCII characters.
    pub fn new() -> (r: Self)
        ensures
            r.spec_str().len() == 36,
            is_ascii_chars(r.spec_str()),
    {
        let id = uuid_hyphenated();
        proof {
            assert(forall|i: int|
                0 <= i < 36 ==> '\0' <= #[trigger] id@[i] <= '\u{7f}');
        }
        SessionId(id)
    }

    /// Wrap an existing identifier string.
    pub fn from_string(s: &str) -> (r: Self)
        ensures
            r.spec_str() == s@,
    {
        SessionId(String::from_str(s))
    }

    /// The identifier as a string.
    pub fn as_str(&self) -> (r: &str)
        ensures
            r@ == self.spec_str(),
    {
        self.0.as_str()
    }
}

impl Default for SessionId {
    /// A fresh random identifier.
    fn default() -> (r: Self)
        ensures
            r.spec_str().len() == 36,
    {
        Self::new()
    }
}

/// Session metadata.
#[derive(Clone, Debug)]
pub struct SessionMetadata {
    /// Session title (auto-generated or user-set)
    pub title: Option<String>,
    /// User/owner ID
    pub user_id: Option<String>,
    /// Model used for this session
    pub model: String,
    /// Custom tags
    pub tags: Vec<String>,
    /// Extra key-value metadata (keys unique)
    pub extra: Vec<(String, JsonValue)>,
}

impl Default for SessionMetadata {
    /// No title, no owner, the stock model, nothing extra.
    fn default() -> (r: Self)
        ensures
            r.title is None,
            r.user_id is None,
            r.model@ == "llama3.2"@,
            r.tags@.len() == 0,
            r.extra@.len() == 0,
    {
        SessionMetadata {
            title: None,
            user_id: None,
            model: String::from_str("llama3.2"),
            tags: Vec::new(),
            extra: Vec::new(),
        }
    }
}

/// The first user message of a conversation, if any.
pub open spec fn spec_first_user(msgs: Seq<Message>) -> Option<Message>
    decreases msgs.len(),
{
    if msgs.len() == 0 {
        None
    } else if msgs[0].role is User {
        Some(msgs[0])
    } else {
        spec_first_user(msgs.drop_first())
    }
}

/// A complete agent session.  Timestamps are microseconds since the Unix
/// epoch.
#[derive(Clone, Debug)]
pub struct Session {
    /// Unique identifier
    pub id: SessionId,
    /// Conversation history
    pub conversation: Conversation,
    /// Session metadata
    pub metadata: SessionMetadata,
    /// Creation timestamp
    pub created_at: i64,
    /// Last activity timestamp
    pub updated_at: i64,
    /// Whether the session is active
    pub active: bool,
}

impl Session {
    /// An identifier long enough (and plain enough) to preview.
    pub open spec fn id_wf(&self) -> bool {
        self.id.spec_str().len() >= 8 && is_ascii_chars(self.id.spec_str())
    }

    /// Create a new, active, empty session.
    pub fn new() -> (r: Self)
        ensures
            r.active,
            r.conversation@.len() == 0,
            r.metadata.title is None,
            r.created_at == r.updated_at,
            r.id_wf(),
    {
        let now = now_micros();
        Session {
            id: SessionId::new(),
            conversation: Conversation::new(),
            metadata: SessionMetadata::default(),
            created_at: now,
            updated_at: now,
            active: true,
        }
    }

    /// Create with a specific identifier.
    pub fn with_id(id: SessionId) -> (r: Self)
        ensures
            r.active,
            r.conversation@.len() == 0,
            r.id == id,
    {
        let mut session = Self::new();
        session.id = id;
        session
    }

    /// Create with a system prompt already in place.
    pub fn with_system_prompt(system_prompt: &str) -> (r: Self)
        ensures
            r.active,
            r.conversation@.len() == 1,
            r.conversation@[0].role is System,
            r.conversation@[0].content@ == system_prompt@,
            r.id_wf(),
    {
        let mut session = Self::new();
        session.conversation = Conversation::with_system_prompt(system_prompt);
        session
    }

    /// Update the activity timestamp.
    pub fn touch(&mut self)
        ensures
            final(self).id == old(self).id,
            final(self).conversation == old(self).conversation,
            final(self).metadata == old(self).metadata,
            final(self).created_at == old(self).created_at,
            final(self).active == old(self).active,
    {
        self.updated_at = now_micros();
    }

    /// Set the session title.
    pub fn set_title(&mut self, title: &str)
        ensures
            final(self).metadata.title matches Some(t) && t@ == title@,
            final(self).id == old(self).id,
            final(self).conversation == old(self).conversation,
            final(self).created_at == old(self).created_at,
            final(self).active == old(self).active,
    {
        self.metadata.title = Some(String::from_str(title));
        self.touch();
    }

    /// The session title: the explicit title when set; else a preview of
    /// the first user message, shortened with an ellipsis when the
    /// message is longer than fifty bytes; else a stub built from the
    /// identifier's first eight characters.
    pub fn title(&self) -> (r: String)
        requires
            self.id_wf(),
        ensures
            self.metadata.title matches Some(t) ==> r@ == t@,
            self.metadata.title is None ==> (spec_first_user(self.conversation@) matches Some(m)
                ==> {
                let preview: Seq<char> = if m.content@.len() <= 50 {
                    m.content@
                } else {
                    m.content@.subrange(0, 50)
                };
                if (encode_utf8(m.content@).len() as usize) > 50 {
                    r@ == preview + "..."@
                } else {
                    r@ == preview
                }
            }),
            self.metadata.title is None && spec_first_user(self.conversation@) is None ==> r@
                == "Session "@ + self.id.spec_str().subrange(0, 8),
    {
        if let Some(t) = &self.metadata.title {
            return t.clone();
        }
        let msgs = self.conversation.messages();
        let n = msgs.len();
        let mut i: usize = 0;
        proof {
            assert(self.conversation@.skip(0) =~= self.conversation@);
        }
        while i < n
            invariant
                self.metadata.title is None,
                n == self.conversation@.len(),
                n == msgs@.len(),
                msgs@ == self.conversation@,
                0 <= i <= n,
                spec_first_user(self.conversation@) == spec_first_user(
                    self.conversation@.skip(i as int),
                ),
            decreases n - i,
        {
            proof {
                assert(self.conversation@.skip(i as int)[0] == self.conversation@[i as int]);
                assert(self.conversation@.skip(i as int).drop_first() =~= self.conversation@.skip(
                    i + 1,
                ));
            }
            let m = &msgs[i];
            let is_user = match m.role {
                Role::User => true,
                _ => false,
            };
            if is_user {
                proof {
                    assert(self.conversation@.skip(i as int)[0].role is User);
                    assert(spec_first_user(self.conversation@.skip(i as int))
                        == Some(self.conversation@[i as int]));
                    assert(spec_first_user(self.conversation@) == Some(*m));
                }
                let clen = m.content.as_str().unicode_len();
                let cut = if clen <= 50 {
                    clen
                } else {
                    50
                };
                let preview = m.content.as_str().substring_char(0, cut);
                let mut out = String::from_str(preview);
                proof {
                    if m.content@.len() <= 50 {
                        assert(m.content@.subrange(0, clen as int) =~= m.content@);
                    }
                }
                if m.content.as_str().len() > 50 {
                    out.append("...");
                }
                return out;
            }
            i = i + 1;
        }
        proof {
            assert(self.conversation@.skip(n as int).len() == 0);
        }
        let mut out = String::from_str("Session ");
        proof {
            assert(is_ascii_chars(self.id.spec_str()));
        }
        out.append(self.id.as_str().substring_ascii(0, 8));
        out
    }

    /// End the session.
    pub fn end(&mut self)
        ensures
            !final(self).active,
            final(self).id == old(self).id,
            final(self).conversation == old(self).conversation,
            final(self).metadata == old(self).metadata,
            final(self).created_at == old(self).created_at,
    {
        self.active = false;
        self.touch();
    }

    /// Message count.
    pub fn message_count(&self) -> (r: usize)
        ensures
            r == self.conversation@.len(),
    {
        self.conversation.len()
    }

    /// Time between creation and the last activity, in microseconds.
    pub fn duration_micros(&self) -> (r: i64)
        requires
            i64::MIN <= self.updated_at - self.created_at <= i64::MAX,
        ensures
            r == self.updated_at - self.created_at,
    {
        self.updated_at - self.created_at
    }
}

impl Default for Session {
    /// A new, active, empty session.
    fn default() -> (r: Self)
        ensures
            r.active,
            r.conversation@.len() == 0,
    {
        Self::new()
    }
}

} // verus!
