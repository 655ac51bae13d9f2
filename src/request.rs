//! The chat-completion request: which model, which messages, and the check
//! that a prompt was given.

use vstd::prelude::*;
use vstd::string::{StrSliceExecFns, StringExecFns};

use crate::cli::UsageError;
use crate::prompt::{compose_message, composed_message};

verus! {

/// Where the request is posted.
pub const ENDPOINT: &'static str = "http://localhost:11434/v1/chat/completions";

/// The environment variable that names the model.
pub const MODEL_VARIABLE: &'static str = "OLLAMA_MODEL";

/// The model used when none is configured.
pub const DEFAULT_MODEL: &'static str = "llama3.2";

/// The fixed instruction sent with the system role.
pub const SYSTEM_PROMPT: &'static str = "You are a concise, context-grounded assistant. You always prioritize analyzing piped input above general knowledge.";

/// One message of the conversation sent.
pub struct ChatMessage {
    pub role: String,
    pub content: String,
}

/// The body of the request: the model, the messages in order, and whether
/// the reply is streamed.
pub struct ChatRequest {
    pub model: String,
    pub messages: Vec<ChatMessage>,
    pub stream: bool,
}

/// The model asked for: the configured one if there is one, else the default.
pub open spec fn resolved_model(configured: Option<Seq<char>>) -> Seq<char> {
    match configured {
        Some(m) => m,
        None => DEFAULT_MODEL@,
    }
}

/// `r` asks `model`, without streaming, for a reply to the fixed system
/// message followed by a user message holding `user`.
pub open spec fn is_request_for(r: ChatRequest, model: Seq<char>, user: Seq<char>) -> bool {
    &&& r.model@ == model
    &&& r.messages@.len() == 2
    &&& r.messages@[0].role@ == "system"@
    &&& r.messages@[0].content@ == SYSTEM_PROMPT@
    &&& r.messages@[1].role@ == "user"@
    &&& r.messages@[1].content@ == user
    &&& !r.stream
}

/// Picks the model: the value of the environment variable when it was set
/// and readable, else the default.
pub fn resolve_model(configured: Option<String>) -> (r: String)
    ensures
        r@ == resolved_model(
            match configured {
                Some(m) => Some(m@),
                None => None,
            },
        ),
{
    match configured {
        Some(m) => m,
        None => String::from_str(DEFAULT_MODEL),
    }
}

/// Builds the request body for `model` and the composed user message.
pub fn build_request(model: String, user_content: String) -> (r: ChatRequest)
    ensures
        is_request_for(r, model@, user_content@),
{
    let mut messages: Vec<ChatMessage> = Vec::new();
    messages.push(
        ChatMessage { role: String::from_str("system"), content: String::from_str(SYSTEM_PROMPT) },
    );
    messages.push(ChatMessage { role: String::from_str("user"), content: user_content });
    ChatRequest { model, messages, stream: false }
}

/// Turns a prompt, the text piped in and the configured model into the
/// request to send. An empty prompt is refused, whatever was piped in.
pub fn prepare_request(prompt: &str, piped_text: &str, configured: Option<String>) -> (r: Result<
    ChatRequest,
    UsageError,
>)
    ensures
        r is Err <==> prompt@.len() == 0,
        r matches Err(e) ==> e is MissingPrompt,
        r matches Ok(req) ==> is_request_for(
            req,
            resolved_model(
                match configured {
                    Some(m) => Some(m@),
                    None => None,
                },
            ),
            composed_message(prompt@, piped_text@),
        ),
{
    if prompt.unicode_len() == 0 {
        return Err(UsageError::MissingPrompt);
    }
    let user_content = compose_message(prompt, piped_text);
    let model = resolve_model(configured);
    Ok(build_request(model, user_content))
}

} // verus!
