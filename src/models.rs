use vstd::prelude::*;

verus! {

/// Who authored a message of a conversation.
#[derive(Debug, Clone, Copy, PartialEq, Eq, Structural)]
pub enum Role {
    User,
    System,
    Assistant,
}

impl Role {
    /// The wire name of the role, in lower case.
    pub open spec fn wire_name(self) -> Seq<char> {
        match self {
            Role::User => seq!['u', 's', 'e', 'r'],
            Role::System => seq!['s', 'y', 's', 't', 'e', 'm'],
            Role::Assistant => seq!['a', 's', 's', 'i', 's', 't', 'a', 'n', 't'],
        }
    }

    pub fn as_str(&self) -> (r: &'static str)
        ensures
            r@ == self.wire_name(),
    {
        let r: &'static str = match self {
            Role::User => "user",
            Role::System => "system",
            Role::Assistant => "assistant",
        };
        proof {
            reveal_strlit("user");
            reveal_strlit("system");
            reveal_strlit("assistant");
        }
        r
    }
}

/// One role-tagged message of a conversation.
#[derive(Debug, Clone)]
pub struct Message {
    pub role: Role,
    pub content: String,
}

impl Message {
    /// A message of the system role.
    pub fn system(content: &str) -> (m: Message)
        ensures
            m.role == Role::System,
            m.content@ == content@,
    {
        Message { role: Role::System, content: content.to_owned() }
    }

    /// A message of the user role.
    pub fn user(content: &str) -> (m: Message)
        ensures
            m.role == Role::User,
            m.content@ == content@,
    {
        Message { role: Role::User, content: content.to_owned() }
    }
}

/// The body of one chat-completion request.
#[derive(Debug, Clone)]
pub struct ChatRequest {
    pub model: String,
    pub messages: Vec<Message>,
}

/// One completion of a chat-completion response.
#[derive(Debug, Clone)]
pub struct Choice {
    pub index: u64,
    pub message: Message,
}

/// A decoded chat-completion response.
#[derive(Debug, Clone)]
pub struct ChatResponse {
    pub id: String,
    pub object: String,
    pub model: String,
    pub created: u64,
    pub choices: Vec<Choice>,
}

/// One entry of the provider's model listing; only its identifier is used.
#[derive(Debug, Clone)]
pub struct ModelInfo {
    pub id: String,
}

} // verus!
