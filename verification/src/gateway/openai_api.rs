//! The OpenAI-compatible interface: `/v1/chat/completions` and `/v1/models`.

use crate::config::AuthMode;

use crate::gateway::chat::{ChatRequest, ChatResponse, StreamDelta};
use crate::gateway::http::{header_after, Headers};
use crate::json::{
    integer, items_view, lemma_items, number, optional_text, JsonNumber, JsonObject, JsonValue,
    JsonView,
};
use crate::media::{hyphenated, MediaId};
use crate::text::{blank, cat2, cat3, is_blank, str_eq, strip_prefix};
use vstd::prelude::*;

verus! {

/// A message of a conversation.
#[derive(Debug)]
pub struct ApiMessage {
    pub role: String,
    pub content: String,
}

/// A request for a completion.
#[derive(Debug)]
pub struct ChatCompletionRequest {
    pub model: String,
    pub messages: Vec<ApiMessage>,
    pub max_tokens: Option<u32>,
    pub temperature: Option<JsonNumber>,
    pub stream: Option<bool>,
}

/// A completion.
#[derive(Debug)]
pub struct ChatCompletionResponse {
    pub id: String,
    pub object: &'static str,
    pub created: i64,
    pub model: String,
    pub choices: Vec<Choice>,
    pub usage: ApiUsage,
}

/// One of the answers of a completion.
#[derive(Debug)]
pub struct Choice {
    pub index: u32,
    pub message: ApiResponseMessage,
    pub finish_reason: &'static str,
}

/// The message of an answer.
#[derive(Debug)]
pub struct ApiResponseMessage {
    pub role: &'static str,
    pub content: String,
}

/// The tokens that a completion took.
#[derive(Clone, Copy, Debug, PartialEq, Eq, Structural)]
pub struct ApiUsage {
    pub prompt_tokens: u32,
    pub completion_tokens: u32,
    pub total_tokens: u32,
}

/// A piece of a completion that is streamed.
#[derive(Debug)]
pub struct StreamChunk {
    pub id: String,
    pub object: &'static str,
    pub created: i64,
    pub model: String,
    pub choices: Vec<StreamChoice>,
}

/// One of the answers in a piece.
#[derive(Debug)]
pub struct StreamChoice {
    pub index: u32,
    pub delta: StreamDeltaContent,
    pub finish_reason: Option<&'static str>,
}

/// What a piece adds to an answer.
#[derive(Debug)]
pub struct StreamDeltaContent {
    pub role: Option<&'static str>,
    pub content: Option<String>,
}

/// An error in the form that clients expect.
#[derive(Debug)]
pub struct ErrorResponse {
    pub error: ApiError,
}

/// What went wrong.
#[derive(Debug)]
pub struct ApiError {
    pub message: String,
    pub error_type: String,
    pub code: Option<String>,
}

impl ErrorResponse {
    /// An error of a given type.
    pub fn new(error_type: &str, message: &str) -> (r: ErrorResponse)
        ensures
            r.error.error_type@ == error_type@,
            r.error.message@ == message@,
            r.error.code is None,
    {
        ErrorResponse {
            error: ApiError {
                message: message.to_owned(),
                error_type: error_type.to_owned(),
                code: None,
            },
        }
    }

    /// The JSON form of an error.
    pub open spec fn json(self) -> JsonView {
        JsonView::Object(
            map![
                "error"@ => JsonView::Object(
                    map![
                        "message"@ => JsonView::Text(self.error.message@),
                        "type"@ => JsonView::Text(self.error.error_type@),
                        "code"@ => optional_text(self.error.code.deep_view()),
                    ],
                ),
            ],
        )
    }

    /// The JSON form of an error.
    pub fn to_json(&self) -> (r: JsonValue)
        ensures
            r@ == self.json(),
    {
        let mut inner = JsonObject::new();
        inner.put_text("message", self.error.message.as_str());
        inner.put_text("type", self.error.error_type.as_str());
        inner.put("code", JsonValue::optional_text(&self.error.code));
        let mut o = JsonObject::new();
        o.put("error", inner.finish());
        o.finish()
    }
}

/// The models that there are.
#[derive(Debug)]
pub struct ModelsResponse {
    pub object: &'static str,
    pub data: Vec<ModelObject>,
}

/// A model.
#[derive(Debug)]
pub struct ModelObject {
    pub id: String,
    pub object: &'static str,
    pub created: i64,
    pub owned_by: String,
}

/// The JSON form of a model.
pub open spec fn model_json(m: ModelObject) -> JsonView {
    JsonView::Object(
        map![
            "id"@ => JsonView::Text(m.id@),
            "object"@ => JsonView::Text(m.object@),
            "created"@ => integer(m.created as int),
            "owned_by"@ => JsonView::Text(m.owned_by@),
        ],
    )
}

impl ModelsResponse {
    /// The JSON form of the models.
    pub open spec fn json(self) -> JsonView {
        JsonView::Object(
            map![
                "object"@ => JsonView::Text(self.object@),
                "data"@ => JsonView::Array(
                    Seq::new(self.data@.len(), |i: int| model_json(self.data@[i])),
                ),
            ],
        )
    }

    /// The JSON form of the models.
    pub fn to_json(&self) -> (r: JsonValue)
        ensures
            r@ == self.json(),
    {
        let mut data: Vec<JsonValue> = Vec::new();
        let mut i: usize = 0;
        while i < self.data.len()
            invariant
                i <= self.data@.len(),
                data@.len() == i,
                forall|k: int| 0 <= k < i ==> (#[trigger] data@[k])@ == model_json(self.data@[k]),
            decreases self.data@.len() - i,
        {
            let m = &self.data[i];
            let mut o = JsonObject::new();
            o.put_text("id", m.id.as_str());
            o.put_text("object", m.object);
            o.put("created", JsonValue::signed(m.created));
            o.put_text("owned_by", m.owned_by.as_str());
            data.push(o.finish());
            i = i + 1;
        }
        proof {
            lemma_items(data@);
            assert(items_view(data@) =~= Seq::new(
                self.data@.len(),
                |i: int| model_json(self.data@[i]),
            ));
        }
        let mut o = JsonObject::new();
        o.put_text("object", self.object);
        o.put("data", JsonValue::Array(data));
        o.finish()
    }
}

/// The models that there are, given the identifier and the owner of each.
pub fn models_handler(models: Vec<(String, String)>) -> (r: ModelsResponse)
    ensures
        r.object@ == "list"@,
        r.data@.len() == models@.len(),
        forall|i: int|
            0 <= i < models@.len() ==> (#[trigger] r.data@[i]).id@ == models@[i].0@
                && r.data@[i].owned_by@ == models@[i].1@ && r.data@[i].object@ == "model"@
                && r.data@[i].created == 0,
{
    let mut data: Vec<ModelObject> = Vec::new();
    let mut i: usize = 0;
    while i < models.len()
        invariant
            i <= models@.len(),
            data@.len() == i,
            forall|k: int|
                0 <= k < i ==> (#[trigger] data@[k]).id@ == models@[k].0@ && data@[k].owned_by@
                    == models@[k].1@ && data@[k].object@ == "model"@ && data@[k].created == 0,
        decreases models@.len() - i,
    {
        data.push(
            ModelObject {
                id: models[i].0.clone(),
                object: "model",
                created: 0,
                owned_by: models[i].1.clone(),
            },
        );
        i = i + 1;
    }
    ModelsResponse { object: "list", data }
}

/// The JSON form of an answer of a completion.
pub open spec fn choice_json(c: Choice) -> JsonView {
    JsonView::Object(
        map![
            "index"@ => number(c.index as nat),
            "message"@ => JsonView::Object(
                map![
                    "role"@ => JsonView::Text(c.message.role@),
                    "content"@ => JsonView::Text(c.message.content@),
                ],
            ),
            "finish_reason"@ => JsonView::Text(c.finish_reason@),
        ],
    )
}

fn choice_value(c: &Choice) -> (r: JsonValue)
    ensures
        r@ == choice_json(*c),
{
    let mut message = JsonObject::new();
    message.put_text("role", c.message.role);
    message.put_text("content", c.message.content.as_str());
    let mut o = JsonObject::new();
    o.put_unsigned("index", c.index as u64);
    o.put("message", message.finish());
    o.put_text("finish_reason", c.finish_reason);
    o.finish()
}

impl ChatCompletionResponse {
    /// The JSON form of a completion.
    pub open spec fn json(self) -> JsonView {
        JsonView::Object(
            map![
                "id"@ => JsonView::Text(self.id@),
                "object"@ => JsonView::Text(self.object@),
                "created"@ => integer(self.created as int),
                "model"@ => JsonView::Text(self.model@),
                "choices"@ => JsonView::Array(
                    Seq::new(self.choices@.len(), |i: int| choice_json(self.choices@[i])),
                ),
                "usage"@ => JsonView::Object(
                    map![
                        "prompt_tokens"@ => number(self.usage.prompt_tokens as nat),
                        "completion_tokens"@ => number(self.usage.completion_tokens as nat),
                        "total_tokens"@ => number(self.usage.total_tokens as nat),
                    ],
                ),
            ],
        )
    }

    /// The JSON form of a completion.
    pub fn to_json(&self) -> (r: JsonValue)
        ensures
            r@ == self.json(),
    {
        let mut choices: Vec<JsonValue> = Vec::new();
        let mut i: usize = 0;
        while i < self.choices.len()
            invariant
                i <= self.choices@.len(),
                choices@.len() == i,
                forall|k: int|
                    0 <= k < i ==> (#[trigger] choices@[k])@ == choice_json(self.choices@[k]),
            decreases self.choices@.len() - i,
        {
            choices.push(choice_value(&self.choices[i]));
            i = i + 1;
        }
        proof {
            lemma_items(choices@);
            assert(items_view(choices@) =~= Seq::new(
                self.choices@.len(),
                |i: int| choice_json(self.choices@[i]),
            ));
        }
        let mut usage = JsonObject::new();
        usage.put_unsigned("prompt_tokens", self.usage.prompt_tokens as u64);
        usage.put_unsigned("completion_tokens", self.usage.completion_tokens as u64);
        usage.put_unsigned("total_tokens", self.usage.total_tokens as u64);
        let mut o = JsonObject::new();
        o.put_text("id", self.id.as_str());
        o.put_text("object", self.object);
        o.put("created", JsonValue::signed(self.created));
        o.put_text("model", self.model.as_str());
        o.put("choices", JsonValue::Array(choices));
        o.put("usage", usage.finish());
        o.finish()
    }
}

/// The JSON form of what a piece adds: only what there is.
pub open spec fn delta_json(d: StreamDeltaContent) -> JsonView {
    let role = match d.role {
        Some(role) => map!["role"@ => JsonView::Text(role@)],
        None => Map::empty(),
    };
    JsonView::Object(
        match d.content {
            Some(content) => role.insert("content"@, JsonView::Text(content@)),
            None => role,
        },
    )
}

/// The JSON form of an answer in a piece.
pub open spec fn stream_choice_json(c: StreamChoice) -> JsonView {
    JsonView::Object(
        map![
            "index"@ => number(c.index as nat),
            "delta"@ => delta_json(c.delta),
            "finish_reason"@ => match c.finish_reason {
                Some(reason) => JsonView::Text(reason@),
                None => JsonView::Null,
            },
        ],
    )
}

fn stream_choice_value(c: &StreamChoice) -> (r: JsonValue)
    ensures
        r@ == stream_choice_json(*c),
{
    let mut delta = JsonObject::new();
    if let Some(role) = c.delta.role {
        delta.put_text("role", role);
    }
    if let Some(content) = &c.delta.content {
        delta.put_text("content", content.as_str());
    }
    let mut o = JsonObject::new();
    o.put_unsigned("index", c.index as u64);
    o.put("delta", delta.finish());
    match c.finish_reason {
        Some(reason) => {
            o.put_text("finish_reason", reason);
        },
        None => {
            o.put("finish_reason", JsonValue::Null);
        },
    }
    o.finish()
}

impl StreamChunk {
    /// The JSON form of a piece.
    pub open spec fn json(self) -> JsonView {
        JsonView::Object(
            map![
                "id"@ => JsonView::Text(self.id@),
                "object"@ => JsonView::Text(self.object@),
                "created"@ => integer(self.created as int),
                "model"@ => JsonView::Text(self.model@),
                "choices"@ => JsonView::Array(
                    Seq::new(self.choices@.len(), |i: int| stream_choice_json(self.choices@[i])),
                ),
            ],
        )
    }

    /// The JSON form of a piece.
    pub fn to_json(&self) -> (r: JsonValue)
        ensures
            r@ == self.json(),
    {
        let mut choices: Vec<JsonValue> = Vec::new();
        let mut i: usize = 0;
        while i < self.choices.len()
            invariant
                i <= self.choices@.len(),
                choices@.len() == i,
                forall|k: int|
                    0 <= k < i ==> (#[trigger] choices@[k])@ == stream_choice_json(
                        self.choices@[k],
                    ),
            decreases self.choices@.len() - i,
        {
            choices.push(stream_choice_value(&self.choices[i]));
            i = i + 1;
        }
        proof {
            lemma_items(choices@);
            assert(items_view(choices@) =~= Seq::new(
                self.choices@.len(),
                |i: int| stream_choice_json(self.choices@[i]),
            ));
        }
        let mut o = JsonObject::new();
        o.put_text("id", self.id.as_str());
        o.put_text("object", self.object);
        o.put("created", JsonValue::signed(self.created));
        o.put_text("model", self.model.as_str());
        o.put("choices", JsonValue::Array(choices));
        o.finish()
    }
}

/// What to make of a request's authorization.
#[derive(Debug)]
pub enum BearerCheck {
    /// Nobody has to prove anything.
    Open,
    /// The token has to be checked.
    Check(String),
    /// There is no token.
    Refused(ErrorResponse),
}

/// What to make of a request's authorization: without an authentication mode
/// anyone may ask; else there has to be a bearer token.
pub fn authenticate_bearer(auth: &AuthMode, headers: &Headers) -> (r: BearerCheck)
    ensures
        match auth {
            AuthMode::Disabled => r is Open,
            _ => match header_after(headers.text("authorization"@), "Bearer "@) {
                Some(token) => r matches BearerCheck::Check(t) && t@ == token,
                None => r matches BearerCheck::Refused(e) && e.error.error_type@
                    == "invalid_api_key"@ && e.error.message@
                    == "Missing Authorization: Bearer <token> header"@ && e.error.code is None,
            },
        },
{
    if matches!(auth, AuthMode::Disabled) {
        return BearerCheck::Open;
    }
    if let Some(value) = headers.get("authorization") {
        if let Some(token) = strip_prefix(value, "Bearer ") {
            assert(token@ =~= value@.skip("Bearer "@.len() as int));
            return BearerCheck::Check(token.to_owned());
        }
    }
    BearerCheck::Refused(
        ErrorResponse::new("invalid_api_key", "Missing Authorization: Bearer <token> header"),
    )
}

/// The content of the last message of the user; empty where there is none.
pub open spec fn last_user_message(messages: Seq<ApiMessage>) -> Seq<char>
    decreases messages.len(),
{
    if messages.len() == 0 {
        Seq::empty()
    } else if messages.last().role@ == "user"@ {
        messages.last().content@
    } else {
        last_user_message(messages.drop_last())
    }
}

fn find_last_user_message(messages: &Vec<ApiMessage>) -> (r: String)
    ensures
        r@ == last_user_message(messages@),
{
    let mut i: usize = messages.len();
    assert(messages@.take(i as int) =~= messages@);
    while i > 0
        invariant
            i <= messages@.len(),
            last_user_message(messages@) == last_user_message(messages@.take(i as int)),
        decreases i,
    {
        i = i - 1;
        proof {
            let front = messages@.take(i + 1);
            assert(front.last() == messages@[i as int]);
            assert(front.drop_last() =~= messages@.take(i as int));
        }
        if str_eq(messages[i].role.as_str(), "user") {
            return messages[i].content.clone();
        }
    }
    String::new()
}

/// A completion that was asked for.
#[derive(Debug)]
pub struct Completion {
    pub request_id: String,
    pub stream: bool,
    pub chat: ChatRequest,
}

/// What a request for a completion asks for: a turn with the last message of
/// the user, under a random identifier; or the error, where that message is
/// missing or blank.
pub fn chat_completions_handler(body: ChatCompletionRequest) -> (r: Result<
    Completion,
    ErrorResponse,
>)
    ensures
        ({
            let message = last_user_message(body.messages@);
            match r {
                Ok(completion) => {
                    &&& !is_blank(message)
                    &&& completion.stream == (body.stream == Some(true))
                    &&& exists|n: u128| completion.request_id@ == "chatcmpl-"@ + #[trigger] hyphenated(n)
                    &&& completion.chat.message@ == message
                    &&& completion.chat.model_id == Some(body.model)
                    &&& completion.chat.max_tokens == body.max_tokens
                    &&& completion.chat.temperature == body.temperature
                    &&& completion.chat.agent_id is None
                    &&& completion.chat.session_key is None
                    &&& completion.chat.attachments@.len() == 0
                    &&& completion.chat.thinking_budget is None
                    &&& completion.chat.channel_id is None
                    &&& completion.chat.channel_capabilities is None
                },
                Err(e) => is_blank(message) && e.error.error_type@ == "invalid_request_error"@
                    && e.error.message@ == "No user message provided"@ && e.error.code is None,
            }
        }),
{
    let stream = match body.stream {
        Some(stream) => stream,
        None => false,
    };
    let message = find_last_user_message(&body.messages);
    if blank(message.as_str()) {
        return Err(ErrorResponse::new("invalid_request_error", "No user message provided"));
    }
    let id = MediaId::new();
    let request_id = cat2("chatcmpl-", id.to_text().as_str());
    proof {
        assert(request_id@ == "chatcmpl-"@ + hyphenated(id.0));
    }
    Ok(
        Completion {
            request_id,
            stream,
            chat: ChatRequest {
                agent_id: None,
                session_key: None,
                message,
                attachments: Vec::new(),
                model_id: Some(body.model),
                max_tokens: body.max_tokens,
                temperature: body.temperature,
                thinking_budget: None,
                channel_id: None,
                channel_capabilities: None,
            },
        },
    )
}

/// The completion that a turn came to.
pub fn handle_non_streaming(
    request_id: String,
    created: i64,
    response: ChatResponse,
    input_tokens: u32,
    output_tokens: u32,
) -> (r: ChatCompletionResponse)
    requires
        input_tokens + output_tokens <= u32::MAX,
    ensures
        r.id == request_id,
        r.object@ == "chat.completion"@,
        r.created == created,
        r.model == response.model_id,
        r.choices@.len() == 1,
        r.choices@[0].index == 0,
        r.choices@[0].message.role@ == "assistant"@,
        r.choices@[0].message.content == response.content,
        r.choices@[0].finish_reason@ == "stop"@,
        r.usage == (ApiUsage {
            prompt_tokens: input_tokens,
            completion_tokens: output_tokens,
            total_tokens: (input_tokens + output_tokens) as u32,
        }),
{
    let mut choices: Vec<Choice> = Vec::new();
    choices.push(
        Choice {
            index: 0,
            message: ApiResponseMessage { role: "assistant", content: response.content },
            finish_reason: "stop",
        },
    );
    ChatCompletionResponse {
        id: request_id,
        object: "chat.completion",
        created,
        model: response.model_id,
        choices,
        usage: ApiUsage {
            prompt_tokens: input_tokens,
            completion_tokens: output_tokens,
            total_tokens: input_tokens + output_tokens,
        },
    }
}

/// A completion that is being streamed.
#[derive(Debug)]
pub struct CompletionStream {
    pub request_id: String,
    pub created: i64,
    pub model: String,
}

/// What to send after a piece of an answer.
#[derive(Debug)]
pub enum StreamStep {
    /// A piece.
    Chunk(StreamChunk),
    /// The last piece, and the mark of the end.
    Last(StreamChunk),
    /// An error, and nothing more.
    Error(JsonValue),
    /// Nothing: the interface knows no tools.
    Skip,
}

/// True when `chunk` is a piece of the stream that adds the given parts.
pub open spec fn is_chunk(
    stream: CompletionStream,
    chunk: StreamChunk,
    role: Option<Seq<char>>,
    content: Option<Seq<char>>,
    finish_reason: Option<Seq<char>>,
) -> bool {
    &&& chunk.id == stream.request_id
    &&& chunk.object@ == "chat.completion.chunk"@
    &&& chunk.created == stream.created
    &&& chunk.model == stream.model
    &&& chunk.choices@.len() == 1
    &&& chunk.choices@[0].index == 0
    &&& chunk.choices@[0].delta.role is Some == role is Some
    &&& role is Some ==> chunk.choices@[0].delta.role->0@ == role->0
    &&& chunk.choices@[0].delta.content.deep_view() == content
    &&& chunk.choices@[0].finish_reason is Some == finish_reason is Some
    &&& finish_reason is Some ==> chunk.choices@[0].finish_reason->0@ == finish_reason->0
}

impl CompletionStream {
    fn chunk(
        &self,
        role: Option<&'static str>,
        content: Option<String>,
        finish_reason: Option<&'static str>,
    ) -> (r: StreamChunk)
        ensures
            is_chunk(
                *self,
                r,
                match role {
                    Some(s) => Some(s@),
                    None => None,
                },
                content.deep_view(),
                match finish_reason {
                    Some(s) => Some(s@),
                    None => None,
                },
            ),
    {
        let mut choices: Vec<StreamChoice> = Vec::new();
        choices.push(
            StreamChoice { index: 0, delta: StreamDeltaContent { role, content }, finish_reason },
        );
        StreamChunk {
            id: self.request_id.clone(),
            object: "chat.completion.chunk",
            created: self.created,
            model: self.model.clone(),
            choices,
        }
    }

    /// The first piece: it tells who speaks.
    pub fn initial(&self) -> (r: StreamChunk)
        ensures
            is_chunk(*self, r, Some("assistant"@), None, None),
    {
        self.chunk(Some("assistant"), None, None)
    }

    /// What to send after a piece of an answer.
    pub fn handle_streaming(&self, delta: StreamDelta) -> (r: StreamStep)
        ensures
            match delta {
                StreamDelta::Text(text) => r matches StreamStep::Chunk(c) && is_chunk(
                    *self,
                    c,
                    None,
                    Some(text@),
                    None,
                ),
                StreamDelta::Done { .. } => r matches StreamStep::Last(c) && is_chunk(
                    *self,
                    c,
                    None,
                    None,
                    Some("stop"@),
                ),
                StreamDelta::Error(message) => r matches StreamStep::Error(j) && j@
                    == JsonView::Object(
                    map![
                        "error"@ => JsonView::Object(
                            map![
                                "message"@ => JsonView::Text(message@),
                                "type"@ => JsonView::Text("server_error"@),
                            ],
                        ),
                    ],
                ),
                _ => r is Skip,
            },
    {
        match delta {
            StreamDelta::Text(text) => StreamStep::Chunk(self.chunk(None, Some(text), None)),
            StreamDelta::Done { .. } => StreamStep::Last(self.chunk(None, None, Some("stop"))),
            StreamDelta::Error(message) => {
                let mut inner = JsonObject::new();
                inner.put_text("message", message.as_str());
                inner.put_text("type", "server_error");
                let mut o = JsonObject::new();
                o.put("error", inner.finish());
                StreamStep::Error(o.finish())
            },
            _ => StreamStep::Skip,
        }
    }
}

/// A server-sent event with the given data.
pub fn sse_event(data: &str) -> (r: String)
    ensures
        r@ == "data: "@ + data@ + "\n\n"@,
{
    cat3("data: ", data, "\n\n")
}

/// The last server-sent event with the given data, and the mark of the end.
pub fn sse_last(data: &str) -> (r: String)
    ensures
        r@ == "data: "@ + data@ + "\n\ndata: [DONE]\n\n"@,
{
    cat3("data: ", data, "\n\ndata: [DONE]\n\n")
}

} // verus!
