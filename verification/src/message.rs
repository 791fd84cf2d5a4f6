//! Conversation messages and the two system messages that the gateway adds.

use vstd::prelude::*;
use vstd::string::StringExecFns;
use crate::text::text_eq;

verus! {

/// The instruction that opens a conversation which brings no system message of its own.
pub const DEFAULT_PREAMBLE: &'static str =
    "You are a knowledgeable AI assistant. Provide detailed, informative answers with examples and context when appropriate. Aim for responses that are at least 3-4 sentences long.";

/// The heading under which search snippets are handed to the model.
pub const SEARCH_HEADING: &'static str = "Relevant information from web search:\n";

/// Who speaks in a message.
#[derive(Clone, Copy, Debug, PartialEq, Eq, Structural)]
pub enum Role {
    System,
    User,
    Assistant,
}

impl Role {
    /// The name of the role on the wire.
    pub open spec fn name(self) -> Seq<char> {
        match self {
            Role::System => "system"@,
            Role::User => "user"@,
            Role::Assistant => "assistant"@,
        }
    }

    /// The role that a wire name stands for, if any.
    pub open spec fn named(text: Seq<char>) -> Option<Role> {
        if text == "system"@ {
            Some(Role::System)
        } else if text == "user"@ {
            Some(Role::User)
        } else if text == "assistant"@ {
            Some(Role::Assistant)
        } else {
            None
        }
    }

    /// The name of the role on the wire.
    pub fn as_str(self) -> (name: &'static str)
        ensures
            name@ == self.name(),
    {
        match self {
            Role::System => "system",
            Role::User => "user",
            Role::Assistant => "assistant",
        }
    }

    /// Reads a wire name; any other text is no role.
    pub fn parse(text: &str) -> (role: Option<Role>)
        ensures
            role == Role::named(text@),
    {
        if text_eq(text, "system") {
            Some(Role::System)
        } else if text_eq(text, "user") {
            Some(Role::User)
        } else if text_eq(text, "assistant") {
            Some(Role::Assistant)
        } else {
            None
        }
    }

    /// Whether the role is the system's.
    pub fn is_system(self) -> (yes: bool)
        ensures
            yes == (self == Role::System),
    {
        match self {
            Role::System => true,
            _ => false,
        }
    }
}

/// Every role is read back from its own wire name.
pub proof fn lemma_role_name_round_trip(role: Role)
    ensures
        Role::named(role.name()) == Some(role),
{
    reveal_strlit("system");
    reveal_strlit("user");
    reveal_strlit("assistant");
    assert("system"@.len() == 6);
    assert("user"@.len() == 4);
    assert("assistant"@.len() == 9);
}

/// One turn of a conversation.
#[derive(Clone, Debug, PartialEq, Eq)]
pub struct Message {
    pub role: Role,
    pub content: String,
}

/// A message as a mathematical value.
pub struct MessageView {
    pub role: Role,
    pub content: Seq<char>,
}

impl View for Message {
    type V = MessageView;

    open spec fn view(&self) -> MessageView {
        MessageView { role: self.role, content: self.content@ }
    }
}

/// The views of a run of messages, in order.
pub open spec fn conversation(messages: Seq<Message>) -> Seq<MessageView> {
    messages.map_values(|m: Message| m@)
}

/// Some message of the conversation speaks as the system.
pub open spec fn has_system(messages: Seq<MessageView>) -> bool {
    exists|i: int| 0 <= i < messages.len() && (#[trigger] messages[i]).role == Role::System
}

/// The default preamble as a message.
pub open spec fn preamble_view() -> MessageView {
    MessageView { role: Role::System, content: DEFAULT_PREAMBLE@ }
}

/// The system message that carries search text `info`.
pub open spec fn search_view(info: Seq<char>) -> MessageView {
    MessageView { role: Role::System, content: SEARCH_HEADING@ + info }
}

impl Message {
    /// A message of `role` that says `content`.
    pub fn new(role: Role, content: String) -> (message: Message)
        ensures
            message@ == (MessageView { role, content: content@ }),
    {
        Message { role, content }
    }

    /// The default preamble.
    pub fn preamble() -> (message: Message)
        ensures
            message@ == preamble_view(),
    {
        Message { role: Role::System, content: String::from_str(DEFAULT_PREAMBLE) }
    }

    /// The system message that hands search text to the model; `info` may be empty.
    pub fn search(info: &str) -> (message: Message)
        ensures
            message@ == search_view(info@),
    {
        let mut content = String::from_str(SEARCH_HEADING);
        content.append(info);
        Message { role: Role::System, content }
    }
}

/// Whether some message of the conversation speaks as the system.
pub fn any_system(messages: &Vec<Message>) -> (found: bool)
    ensures
        found == has_system(conversation(messages@)),
{
    let mut i: usize = 0;
    while i < messages.len()
        invariant
            i <= messages@.len(),
            forall|k: int|
                0 <= k < i ==> (#[trigger] conversation(messages@)[k]).role != Role::System,
        decreases messages@.len() - i,
    {
        if messages[i].role.is_system() {
            assert(conversation(messages@)[i as int].role == Role::System);
            return true;
        }
        i += 1;
    }
    false
}

} // verus!
