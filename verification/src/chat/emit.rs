//! Chat → UI event topics (`chat:<entity>/<verb>`). Desktop event names
//! allow only ASCII letters, digits, `-`, `/`, `:` and `_` (no `.`).
use vstd::prelude::*;

verus! {

/// A character allowed in a UI event name.
pub open spec fn topic_char(c: char) -> bool {
    ('a' <= c && c <= 'z') || ('A' <= c && c <= 'Z') || ('0' <= c && c <= '9') || c == '-' || c == '/' || c == ':'
        || c == '_'
}

/// Every character of the name is allowed in a UI event name.
pub open spec fn topic_safe(s: Seq<char>) -> bool {
    forall|i: int| 0 <= i < s.len() ==> topic_char(#[trigger] s[i])
}

/// Chat → UI event topics.
#[derive(Debug, Clone, Copy, PartialEq, Eq, Hash, Structural)]
pub enum ChatUIEvent {
    /// One streamed token of an assistant reply (delta or final done).
    MessageToken,
    /// One tool call executed by the assistant during a reply.
    MessageTool,
}

/// The topic of a chat event.
pub open spec fn chat_topic(e: ChatUIEvent) -> Seq<char> {
    match e {
        ChatUIEvent::MessageToken => "chat:message/token"@,
        ChatUIEvent::MessageTool => "chat:message/tool"@,
    }
}

impl ChatUIEvent {
    /// The event's topic, such as `chat:message/token`.
    pub fn as_str(self) -> (s: &'static str)
        ensures
            s@ == chat_topic(self),
    {
        match self {
            ChatUIEvent::MessageToken => "chat:message/token",
            ChatUIEvent::MessageTool => "chat:message/tool",
        }
    }
}

/// Every chat topic is a valid UI event name; in particular it has no `.`.
pub proof fn lemma_chat_topics_safe(e: ChatUIEvent)
    ensures
        topic_safe(chat_topic(e)),
        !chat_topic(e).contains('.'),
{
    reveal_strlit("chat:message/token");
    reveal_strlit("chat:message/tool");
}

/// An emitter that drops every event (tests, or before the UI is attached).
#[derive(Debug, Default, Clone, Copy)]
pub struct NoopChatUIEmitter;

} // verus!
