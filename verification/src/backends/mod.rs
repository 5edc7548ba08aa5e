//! The data exchanged with a backend: chat requests and their responses.

pub mod stdio_cli;

use vstd::prelude::*;
use vstd::string::*;

verus! {

/// One message of a conversation.
#[derive(Debug, Clone)]
pub struct ChatMessage {
    pub role: String,
    pub content: String,
}

impl ChatMessage {
    /// A message with the given role and content.
    pub open spec fn has(self, role: Seq<char>, content: Seq<char>) -> bool {
        self.role@ == role && self.content@ == content
    }

    /// A `user` message.
    pub fn user(content: &str) -> (m: ChatMessage)
        ensures
            m.has("user"@, content@),
    {
        ChatMessage { role: String::from_str("user"), content: String::from_str(content) }
    }

    /// A `system` message.
    pub fn system(content: &str) -> (m: ChatMessage)
        ensures
            m.has("system"@, content@),
    {
        ChatMessage { role: String::from_str("system"), content: String::from_str(content) }
    }

    /// An `assistant` message.
    pub fn assistant(content: &str) -> (m: ChatMessage)
        ensures
            m.has("assistant"@, content@),
    {
        ChatMessage { role: String::from_str("assistant"), content: String::from_str(content) }
    }

    /// A copy of this message.
    pub fn duplicate(&self) -> (m: ChatMessage)
        ensures
            m.has(self.role@, self.content@),
    {
        ChatMessage { role: self.role.clone(), content: self.content.clone() }
    }
}

/// A single request to a backend.
#[derive(Debug, Clone)]
pub struct ChatRequest {
    pub messages: Vec<ChatMessage>,
    pub max_tokens: Option<u32>,
    /// Model override, substituted for `{model}` in a stdio-cli argument template.
    pub model: Option<String>,
}

impl ChatRequest {
    /// A request made of one message with the given role and content and
    /// no further options: what every workflow engine sends.
    pub open spec fn is_single(self, role: Seq<char>, content: Seq<char>) -> bool {
        &&& self.messages@.len() == 1
        &&& self.messages@[0].has(role, content)
        &&& self.max_tokens is None
        &&& self.model is None
    }

    /// A request holding one message of the given role and content.
    pub fn single(role: &str, content: &str) -> (r: ChatRequest)
        ensures
            r.is_single(role@, content@),
    {
        let mut messages: Vec<ChatMessage> = Vec::new();
        messages.push(ChatMessage { role: String::from_str(role), content: String::from_str(content) });
        ChatRequest { messages, max_tokens: None, model: None }
    }

    /// The request of `weir chat`: the system message when one is given, then
    /// the prompt as a `user` message, with the caller's token limit and model.
    pub fn chat(system: Option<&str>, prompt: &str, max_tokens: Option<u32>, model: Option<String>) -> (r:
        ChatRequest)
        ensures
            match system {
                Some(s) => r.messages@.len() == 2 && r.messages@[0].has("system"@, s@) && r.messages@[1].has(
                    "user"@,
                    prompt@,
                ),
                None => r.messages@.len() == 1 && r.messages@[0].has("user"@, prompt@),
            },
            r.max_tokens == max_tokens,
            r.model == model,
    {
        let mut messages: Vec<ChatMessage> = Vec::new();
        match system {
            Some(s) => messages.push(ChatMessage::system(s)),
            None => {},
        }
        messages.push(ChatMessage::user(prompt));
        ChatRequest { messages, max_tokens, model }
    }

    /// A request holding one `user` message.
    pub fn user(content: &str) -> (r: ChatRequest)
        ensures
            r.is_single("user"@, content@),
    {
        ChatRequest::single("user", content)
    }
}

/// Token counts a backend may report.
#[derive(Debug, Clone, Copy)]
pub struct Usage {
    pub prompt_tokens: u32,
    pub completion_tokens: u32,
    pub total_tokens: u32,
}

/// The result of a single backend call.
#[derive(Debug, Clone)]
pub struct ChatResponse {
    pub content: String,
    pub backend_name: String,
    pub model: Option<String>,
    pub usage: Option<Usage>,
}

impl ChatResponse {
    /// A response from `backend_name` with the given content and nothing else.
    pub fn plain(backend_name: &str, content: &str) -> (r: ChatResponse)
        ensures
            r.backend_name@ == backend_name@,
            r.content@ == content@,
            r.model is None,
            r.usage is None,
    {
        ChatResponse {
            content: String::from_str(content),
            backend_name: String::from_str(backend_name),
            model: None,
            usage: None,
        }
    }
}

} // verus!
