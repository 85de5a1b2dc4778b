//! Requests to the model runtime and its answers.

use crate::json::{JsonNumber, JsonValue};
use crate::message::{ChannelCapabilities, InboundAttachment};
use crate::types::{AgentId, ChannelId, SessionKey};
use vstd::prelude::*;

verus! {

/// A turn for the model runtime. How its progress is streamed and cancelled is
/// up to the caller.
#[derive(Debug)]
pub struct ChatRequest {
    pub agent_id: Option<AgentId>,
    pub session_key: Option<SessionKey>,
    pub message: String,
    pub attachments: Vec<InboundAttachment>,
    pub model_id: Option<String>,
    pub max_tokens: Option<u32>,
    pub temperature: Option<JsonNumber>,
    pub thinking_budget: Option<u32>,
    pub channel_id: Option<ChannelId>,
    pub channel_capabilities: Option<ChannelCapabilities>,
}

impl ChatRequest {
    /// True of a request that sets nothing but the agent, the session and the
    /// message.
    pub open spec fn is_plain(self) -> bool {
        &&& self.attachments@.len() == 0
        &&& self.model_id is None
        &&& self.max_tokens is None
        &&& self.temperature is None
        &&& self.thinking_budget is None
        &&& self.channel_id is None
        &&& self.channel_capabilities is None
    }

    /// The request that sets nothing but the agent, the session and the
    /// message.
    pub fn plain(
        agent_id: Option<AgentId>,
        session_key: Option<SessionKey>,
        message: String,
    ) -> (r: ChatRequest)
        ensures
            r.agent_id == agent_id,
            r.session_key == session_key,
            r.message == message,
            r.is_plain(),
    {
        ChatRequest {
            agent_id,
            session_key,
            message,
            attachments: Vec::new(),
            model_id: None,
            max_tokens: None,
            temperature: None,
            thinking_budget: None,
            channel_id: None,
            channel_capabilities: None,
        }
    }
}

/// The answer of the model runtime.
#[derive(Debug)]
pub struct ChatResponse {
    pub session_key: SessionKey,
    pub model_id: String,
    pub content: String,
    /// The tokens that the turn took, as the runtime reports them.
    pub usage: JsonValue,
}

/// A piece of an answer while it is being made.
#[derive(Debug)]
pub enum StreamDelta {
    Text(String),
    ToolCallStart { id: String, name: String },
    ToolCallDelta { id: String, arguments: String },
    ToolCallEnd { id: String },
    Done { usage: JsonValue },
    Error(String),
}

} // verus!
