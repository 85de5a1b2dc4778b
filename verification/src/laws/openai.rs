//! The OpenAI-compatible interface: the last word of the user is what the agent
//! gets, and what the agent says is what the client gets.

use crate::config::AuthMode;
use crate::gateway::chat::{ChatResponse, StreamDelta};
use crate::gateway::http::Headers;
use crate::gateway::openai_api::{
    authenticate_bearer, chat_completions_handler, handle_non_streaming, last_user_message,
    models_handler, sse_event, sse_last, ApiMessage, BearerCheck, ChatCompletionRequest,
    ChatCompletionResponse, Completion, CompletionStream, ErrorResponse, ModelsResponse,
    StreamChunk, StreamStep,
};
use crate::json::JsonValue;
use crate::laws::terms::{inner, listed, said, said_in, whole};
use crate::text::is_blank;
use vstd::prelude::*;

verus! {

proof fn lemma_last_user(messages: Seq<ApiMessage>, at: int)
    requires
        0 <= at < messages.len(),
        messages[at].role@ == "user"@,
        forall|k: int| at < k < messages.len() ==> (#[trigger] messages[k]).role@ != "user"@,
    ensures
        last_user_message(messages) == messages[at].content@,
    decreases messages.len(),
{
    if at < messages.len() - 1 {
        assert(messages[messages.len() - 1].role@ != "user"@);
        let front = messages.drop_last();
        assert forall|k: int| at < k < front.len() implies (#[trigger] front[k]).role@
            != "user"@ by {
            assert(front[k] == messages[k]);
        }
        lemma_last_user(front, at);
    }
}

proof fn lemma_no_user(messages: Seq<ApiMessage>)
    requires
        forall|k: int| 0 <= k < messages.len() ==> (#[trigger] messages[k]).role@ != "user"@,
    ensures
        last_user_message(messages).len() == 0,
    decreases messages.len(),
{
    if messages.len() > 0 {
        assert(messages[messages.len() - 1].role@ != "user"@);
        let front = messages.drop_last();
        assert forall|k: int| 0 <= k < front.len() implies (#[trigger] front[k]).role@
            != "user"@ by {
            assert(front[k] == messages[k]);
        }
        lemma_no_user(front);
    }
}

/// The last message of the user is the one that the agent gets, for the model
/// and within the limits that the client names.
pub proof fn law_last_word_of_the_user(
    body: ChatCompletionRequest,
    at: int,
    r: Result<Completion, ErrorResponse>,
)
    requires
        call_ensures(chat_completions_handler, (body,), r),
        0 <= at < body.messages@.len(),
        body.messages@[at].role@ == "user"@,
        forall|k: int|
            at < k < body.messages@.len() ==> (#[trigger] body.messages@[k]).role@ != "user"@,
    ensures
        r is Ok <==> !is_blank(body.messages@[at].content@),
        r is Ok ==> r->Ok_0.chat.message@ == body.messages@[at].content@,
        r is Ok ==> r->Ok_0.chat.model_id is Some && r->Ok_0.chat.model_id->0@ == body.model@,
        r is Ok ==> r->Ok_0.chat.max_tokens == body.max_tokens,
        r is Ok ==> r->Ok_0.chat.temperature == body.temperature,
        r is Ok ==> r->Ok_0.chat.session_key is None && r->Ok_0.chat.agent_id is None,
        r is Ok ==> (r->Ok_0.stream <==> body.stream == Some(true)),
        r is Ok ==> "chatcmpl-"@.is_prefix_of(r->Ok_0.request_id@),
{
    lemma_last_user(body.messages@, at);
    if r is Ok {
        let n = choose|n: u128|
            r->Ok_0.request_id@ == "chatcmpl-"@ + #[trigger] crate::media::hyphenated(n);
        assert(r->Ok_0.request_id@.take("chatcmpl-"@.len() as int) =~= "chatcmpl-"@);
    }
}

/// A conversation in which the user says nothing is refused.
pub proof fn law_user_has_to_speak(
    body: ChatCompletionRequest,
    r: Result<Completion, ErrorResponse>,
)
    requires
        call_ensures(chat_completions_handler, (body,), r),
        forall|k: int|
            0 <= k < body.messages@.len() ==> (#[trigger] body.messages@[k]).role@ != "user"@,
    ensures
        r is Err,
        r->Err_0.error.error_type@ == "invalid_request_error"@,
{
    lemma_no_user(body.messages@);
    assert(last_user_message(body.messages@) =~= Seq::empty());
    crate::text::lemma_trimmed(Seq::empty());
    assert(is_blank(Seq::<char>::empty()));
}

/// Where authentication is on, a request has to show a bearer token, and the one
/// that it shows is the one that is checked.
pub proof fn law_bearer(
    auth: &AuthMode,
    headers: &Headers,
    name: &str,
    header: Option<&str>,
    token: Seq<char>,
    r: BearerCheck,
)
    requires
        name@ == "authorization"@,
        call_ensures(Headers::get, (headers, name), header),
        call_ensures(authenticate_bearer, (auth, headers), r),
    ensures
        r is Open <==> auth is Disabled,
        !(auth is Disabled) && header is Some && header->0@ == "Bearer "@ + token ==> r is Check
            && r->Check_0@ == token,
        !(auth is Disabled) && (header is None || !"Bearer "@.is_prefix_of(header->0@)) ==> r
            is Refused && r->Refused_0.error.error_type@ == "invalid_api_key"@,
{
    if header is Some && header->0@ == "Bearer "@ + token {
        assert("Bearer "@.is_prefix_of(header->0@));
        assert(header->0@.skip("Bearer "@.len() as int) =~= token);
    }
}

/// A completion has one answer, which is what the agent said, and counts the
/// tokens that went in and out.
pub proof fn law_completion(
    id: String,
    created: i64,
    response: ChatResponse,
    input: u32,
    output: u32,
    r: ChatCompletionResponse,
    told: JsonValue,
)
    requires
        input + output <= u32::MAX,
        call_ensures(handle_non_streaming, (id, created, response, input, output), r),
        call_ensures(ChatCompletionResponse::to_json, (&r,), told),
    ensures
        r.choices@.len() == 1,
        r.choices@[0].message.content@ == response.content@,
        r.choices@[0].message.role@ == "assistant"@,
        r.choices@[0].finish_reason@ == "stop"@,
        r.id@ == id@ && r.model@ == response.model_id@ && r.created == created,
        r.usage.prompt_tokens == input,
        r.usage.completion_tokens == output,
        r.usage.total_tokens == input + output,
        said(told@, "id"@) == Some(id@),
        said(told@, "object"@) == Some("chat.completion"@),
        said(told@, "model"@) == Some(response.model_id@),
        listed(told@, "choices"@) is Some,
        listed(told@, "choices"@)->0.len() == 1,
        said_in(listed(told@, "choices"@)->0[0], "message"@, "content"@) == Some(
            response.content@,
        ),
        inner(told@, "usage"@) is Some,
        whole(inner(told@, "usage"@)->0, "prompt_tokens"@) == Some(input as nat),
        whole(inner(told@, "usage"@)->0, "completion_tokens"@) == Some(output as nat),
        whole(inner(told@, "usage"@)->0, "total_tokens"@) == Some((input + output) as nat),
{
    reveal_strlit("id");
    reveal_strlit("object");
    reveal_strlit("created");
    reveal_strlit("model");
    reveal_strlit("choices");
    reveal_strlit("usage");
    reveal_strlit("prompt_tokens");
    reveal_strlit("completion_tokens");
    reveal_strlit("total_tokens");
    reveal_strlit("index");
    reveal_strlit("message");
    reveal_strlit("finish_reason");
    reveal_strlit("role");
    reveal_strlit("content");
    assert("id"@.len() == 2);
    assert("object"@.len() == 6);
    assert("created"@.len() == 7 && "created"@[1] == 'r');
    assert("model"@.len() == 5 && "model"@[0] == 'm');
    assert("choices"@.len() == 7 && "choices"@[1] == 'h');
    assert("usage"@.len() == 5 && "usage"@[0] == 'u');
    assert("prompt_tokens"@.len() == 13);
    assert("completion_tokens"@.len() == 17);
    assert("total_tokens"@.len() == 12);
    assert("index"@.len() == 5);
    assert("message"@.len() == 7);
    assert("finish_reason"@.len() == 13);
    assert("role"@.len() == 4);
    assert("content"@.len() == 7);
}

/// A stream begins with who speaks; each text of the answer is a piece of its
/// own; the end is marked once; tools are passed over.
pub proof fn law_stream(
    stream: &CompletionStream,
    delta: StreamDelta,
    first: StreamChunk,
    r: StreamStep,
)
    requires
        call_ensures(CompletionStream::initial, (stream,), first),
        call_ensures(CompletionStream::handle_streaming, (stream, delta), r),
    ensures
        first.choices@.len() == 1,
        first.choices@[0].delta.role is Some && first.choices@[0].delta.role->0@ == "assistant"@,
        first.choices@[0].delta.content is None && first.choices@[0].finish_reason is None,
        first.id@ == stream.request_id@ && first.model@ == stream.model@,
        delta is Text <==> r is Chunk,
        r is Chunk ==> r->Chunk_0.id@ == stream.request_id@ && r->Chunk_0.choices@.len() == 1
            && r->Chunk_0.choices@[0].delta.content is Some
            && r->Chunk_0.choices@[0].delta.content->0@ == delta->Text_0@
            && r->Chunk_0.choices@[0].finish_reason is None,
        delta is Done <==> r is Last,
        r is Last ==> r->Last_0.id@ == stream.request_id@ && r->Last_0.choices@.len() == 1
            && r->Last_0.choices@[0].finish_reason is Some
            && r->Last_0.choices@[0].finish_reason->0@ == "stop"@
            && r->Last_0.choices@[0].delta.content is None,
        delta is Error <==> r is Error,
        r is Error ==> said_in(r->Error_0@, "error"@, "message"@) == Some(delta->Error_0@),
{
    reveal_strlit("message");
    reveal_strlit("type");
    assert("message"@.len() == 7);
    assert("type"@.len() == 4);
    if r is Chunk {
        assert(r->Chunk_0.choices@[0].delta.content.deep_view() == Some(delta->Text_0@));
    }
}

/// What a piece adds is what the client reads in it.
pub proof fn law_pieces_are_told(chunk: &StreamChunk, i: int, r: JsonValue)
    requires
        call_ensures(StreamChunk::to_json, (chunk,), r),
        0 <= i < chunk.choices@.len(),
    ensures
        said(r@, "id"@) == Some(chunk.id@),
        said(r@, "model"@) == Some(chunk.model@),
        said(r@, "object"@) == Some(chunk.object@),
        listed(r@, "choices"@) is Some,
        listed(r@, "choices"@)->0.len() == chunk.choices@.len(),
        ({
            let told = listed(r@, "choices"@)->0[i];
            let choice = chunk.choices@[i];
            &&& said_in(told, "delta"@, "content"@) == choice.delta.content.deep_view()
            &&& said_in(told, "delta"@, "role"@) is Some == choice.delta.role is Some
            &&& choice.delta.role is Some ==> said_in(told, "delta"@, "role"@) == Some(
                choice.delta.role->0@,
            )
            &&& said(told, "finish_reason"@) is Some == choice.finish_reason is Some
            &&& choice.finish_reason is Some ==> said(told, "finish_reason"@) == Some(
                choice.finish_reason->0@,
            )
        }),
{
    reveal_strlit("id");
    reveal_strlit("object");
    reveal_strlit("created");
    reveal_strlit("model");
    reveal_strlit("choices");
    reveal_strlit("index");
    reveal_strlit("delta");
    reveal_strlit("finish_reason");
    reveal_strlit("role");
    reveal_strlit("content");
    assert("id"@.len() == 2);
    assert("object"@.len() == 6);
    assert("created"@.len() == 7 && "created"@[1] == 'r');
    assert("model"@.len() == 5);
    assert("choices"@.len() == 7 && "choices"@[1] == 'h');
    assert("index"@.len() == 5 && "index"@[0] == 'i');
    assert("delta"@.len() == 5 && "delta"@[0] == 'd');
    assert("finish_reason"@.len() == 13);
    assert("role"@.len() == 4);
    assert("content"@.len() == 7);
}

/// An event carries its data, and the last one the mark of the end behind it.
pub proof fn law_events(data: &str, r: String, last: String)
    requires
        call_ensures(sse_event, (data,), r),
        call_ensures(sse_last, (data,), last),
    ensures
        r@ == "data: "@ + data@ + "\n\n"@,
        r@.is_prefix_of(last@),
        last@ == r@ + "data: [DONE]\n\n"@,
{
    reveal_strlit("\n\n");
    reveal_strlit("data: [DONE]\n\n");
    reveal_strlit("\n\ndata: [DONE]\n\n");
    assert("\n\ndata: [DONE]\n\n"@ =~= "\n\n"@ + "data: [DONE]\n\n"@);
    assert(last@ =~= r@ + "data: [DONE]\n\n"@);
    assert(last@.take(r@.len() as int) =~= r@);
}

/// Every model is listed, in order, with its owner.
pub proof fn law_models_are_listed(
    models: Vec<(String, String)>,
    i: int,
    r: ModelsResponse,
    told: JsonValue,
)
    requires
        call_ensures(models_handler, (models,), r),
        call_ensures(ModelsResponse::to_json, (&r,), told),
        0 <= i < models@.len(),
    ensures
        listed(told@, "data"@) is Some,
        listed(told@, "data"@)->0.len() == models@.len(),
        said(listed(told@, "data"@)->0[i], "id"@) == Some(models@[i].0@),
        said(listed(told@, "data"@)->0[i], "owned_by"@) == Some(models@[i].1@),
{
    reveal_strlit("id");
    reveal_strlit("object");
    reveal_strlit("created");
    reveal_strlit("owned_by");
    reveal_strlit("data");
    assert("id"@.len() == 2);
    assert("object"@.len() == 6);
    assert("created"@.len() == 7);
    assert("owned_by"@.len() == 8);
    assert("data"@.len() == 4);
    assert(r.data@[i].id@ == models@[i].0@);
}

/// An error tells its message and its type.
pub proof fn law_errors_are_told(kind: &str, message: &str, r: ErrorResponse, told: JsonValue)
    requires
        call_ensures(ErrorResponse::new, (kind, message), r),
        call_ensures(ErrorResponse::to_json, (&r,), told),
    ensures
        said_in(told@, "error"@, "message"@) == Some(message@),
        said_in(told@, "error"@, "type"@) == Some(kind@),
{
    reveal_strlit("message");
    reveal_strlit("type");
    reveal_strlit("code");
    assert("message"@.len() == 7);
    assert("type"@.len() == 4 && "type"@[0] == 't');
    assert("code"@.len() == 4 && "code"@[0] == 'c');
}

} // verus!
