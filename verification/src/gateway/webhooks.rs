//! Webhooks: checking, finding the text, and the turn that follows.

use crate::config::{
    filled, hooks_problem, FrankClawConfig, HooksConfig, RawMapping, WebhookMapping,
};
use crate::error::{config_invalid, invalid_request, outcome_is, ErrorView, FrankClawError};
use crate::gateway::chat::ChatRequest;
use crate::json::{notation, value_notation, JsonValue, JsonView, NumberView};
use crate::signature::{law_signature_holds, signature_holds, signature_text, signature_matches};
use crate::text::{
    blank, cat3, decimal, is_blank, parse_signed, replace, replaced, signed_of, split, split_on, str_eq,
    trimmed,
};
use vstd::prelude::*;

verus! {

/// The greatest difference between a webhook's timestamp and the clock, in
/// seconds.
pub const MAX_WEBHOOK_AGE_SECS: i64 = 300;

/// A webhook request that found its mapping and its text.
#[derive(Debug)]
pub struct ResolvedWebhookRequest {
    pub mapping: WebhookMapping,
    pub message: String,
}

/// True when the raw mapping is one under the name `id`.
pub open spec fn is_mapping(raw: RawMapping, id: Seq<char>) -> bool {
    raw is Mapping && raw->Mapping_0.id@ == id
}

/// The first mapping from `i` on under the name `id`.
pub open spec fn mapping_named(mappings: Seq<RawMapping>, id: Seq<char>, i: int) -> Option<
    WebhookMapping,
>
    decreases mappings.len() - i,
{
    if i < 0 || i >= mappings.len() {
        None
    } else if is_mapping(mappings[i], id) {
        Some(mappings[i]->Mapping_0)
    } else {
        mapping_named(mappings, id, i + 1)
    }
}

/// The mapping that serves requests to `id`.
pub open spec fn mapping_for(hooks: HooksConfig, id: Seq<char>) -> Option<WebhookMapping> {
    if hooks.enabled {
        mapping_named(hooks.mappings@, id, 0)
    } else {
        None
    }
}

/// Why no mapping serves requests to `id`, if none does.
pub open spec fn mapping_missing(hooks: HooksConfig, id: Seq<char>) -> Option<ErrorView> {
    if hooks_problem(hooks) is Some {
        hooks_problem(hooks)
    } else if mapping_for(hooks, id) is None {
        Some(ErrorView::InvalidRequest("unknown webhook mapping '"@ + id + "'"@))
    } else {
        None
    }
}

/// The mapping that serves requests to `mapping_id`.
pub fn resolve_mapping(config: &FrankClawConfig, mapping_id: &str) -> (r: Result<
    WebhookMapping,
    FrankClawError,
>)
    ensures
        outcome_is(r, mapping_missing(config.hooks, mapping_id@)),
        r is Ok ==> Some(r->Ok_0) == mapping_for(config.hooks, mapping_id@),
{
    let mappings = match config.hooks.parsed_mappings() {
        Ok(mappings) => mappings,
        Err(err) => {
            return Err(err);
        },
    };
    let ghost raw = config.hooks.mappings@;
    let mut i: usize = 0;
    while i < mappings.len()
        invariant
            i <= mappings@.len(),
            raw == config.hooks.mappings@,
            config.hooks.enabled ==> mappings@.len() == raw.len() && forall|k: int|
                0 <= k < raw.len() ==> raw[k] == RawMapping::Mapping(#[trigger] mappings@[k]),
            !config.hooks.enabled ==> mappings@.len() == 0,
            hooks_problem(config.hooks) is None,
            config.hooks.enabled ==> mapping_for(config.hooks, mapping_id@) == mapping_named(
                raw,
                mapping_id@,
                i as int,
            ),
        decreases mappings@.len() - i,
    {
        assert(raw[i as int] == RawMapping::Mapping(mappings@[i as int]));
        if str_eq(mappings[i].id.as_str(), mapping_id) {
            return Ok(mappings[i].clone());
        }
        i = i + 1;
    }
    Err(invalid_request(cat3("unknown webhook mapping '", mapping_id, "'").as_str()))
}

/// Why a signed body is turned down, if it is.
pub open spec fn signature_problem(
    hooks: HooksConfig,
    body: Seq<u8>,
    header: Option<Seq<char>>,
) -> Option<ErrorView> {
    if !hooks.enabled {
        Some(ErrorView::Forbidden("webhooks"@))
    } else if !filled(hooks.token.deep_view()) {
        Some(ErrorView::ConfigValidation("hooks.token is required when hooks are enabled"@))
    } else if header is None {
        Some(ErrorView::AuthRequired)
    } else if !signature_holds(hooks.token->0@, body, header->0) {
        Some(ErrorView::AuthFailed)
    } else {
        None
    }
}

/// Checks the signature of a webhook body.
pub fn verify_signature(
    config: &FrankClawConfig,
    body: &[u8],
    signature_header: Option<&str>,
) -> (r: Result<(), FrankClawError>)
    ensures
        outcome_is(
            r,
            signature_problem(
                config.hooks,
                body@,
                match signature_header {
                    Some(s) => Some(s@),
                    None => None,
                },
            ),
        ),
{
    if !config.hooks.enabled {
        return Err(FrankClawError::Forbidden { method: "webhooks".to_owned() });
    }
    let secret = match &config.hooks.token {
        Some(token) => if blank(token.as_str()) {
            return Err(config_invalid("hooks.token is required when hooks are enabled"));
        } else {
            token.as_str()
        },
        None => {
            return Err(config_invalid("hooks.token is required when hooks are enabled"));
        },
    };
    match signature_header {
        Some(header) => if signature_matches(secret, body, header) {
            Ok(())
        } else {
            Err(FrankClawError::AuthFailed)
        },
        None => Err(FrankClawError::AuthRequired),
    }
}

/// Hooks that are on and have a token accept every body that is signed with
/// that token.
pub proof fn law_signed_body_accepted(hooks: HooksConfig, body: Seq<u8>)
    requires
        hooks.enabled,
        filled(hooks.token.deep_view()),
    ensures
        signature_problem(hooks, body, Some(signature_text(hooks.token->0@, body))) is None,
{
    law_signature_holds(hooks.token->0@, body);
}

/// The value under a path of keys. White space around a key does not count;
/// a key without anything else leads nowhere.
pub open spec fn at_path(j: JsonView, keys: Seq<Seq<char>>) -> Option<JsonView>
    decreases keys.len(),
{
    if keys.len() == 0 {
        Some(j)
    } else if is_blank(keys[0]) {
        None
    } else {
        match j.member(trimmed(keys[0])) {
            Some(next) => at_path(next, keys.drop_first()),
            None => None,
        }
    }
}

/// The value under a path in dot notation, such as `data.message.text`.
pub fn value_at_path<'a>(value: &'a JsonValue, path: &str) -> (r: Option<&'a JsonValue>)
    ensures
        r is Some == at_path(value@, split_on(path@, '.')) is Some,
        r is Some ==> r->0@ == at_path(value@, split_on(path@, '.'))->0,
{
    let keys = split(path, '.');
    let mut current = value;
    let mut i: usize = 0;
    assert(keys.deep_view().skip(0) =~= keys.deep_view());
    while i < keys.len()
        invariant
            i <= keys@.len(),
            keys.deep_view() == split_on(path@, '.'),
            at_path(value@, split_on(path@, '.')) == at_path(
                current@,
                keys.deep_view().skip(i as int),
            ),
        decreases keys@.len() - i,
    {
        let ghost rest = keys.deep_view().skip(i as int);
        assert(rest[0] == keys@[i as int]@);
        assert(rest.drop_first() =~= keys.deep_view().skip(i + 1));
        let key = keys[i].as_str().trim();
        if key.is_empty() {
            return None;
        }
        match current.get(key) {
            Some(next) => {
                current = next;
            },
            None => {
                return None;
            },
        }
        i = i + 1;
    }
    Some(current)
}

/// The text that a value stands for: a string is its own text, null is none,
/// and anything else is its JSON notation.
pub open spec fn value_text(j: JsonView, notation: Seq<char>) -> Option<Seq<char>> {
    match j {
        JsonView::Text(s) => Some(s),
        JsonView::Null => None,
        _ => Some(notation),
    }
}

/// The text that a value stands for, given its JSON notation.
pub fn text_of_value(j: &JsonValue, notation: &str) -> (r: Option<String>)
    ensures
        r.deep_view() == value_text(j@, notation@),
{
    match j {
        JsonValue::Text(s) => Some(s.clone()),
        JsonValue::Null => None,
        _ => Some(notation.to_owned()),
    }
}

/// The text under a path in dot notation, if there is one.
pub open spec fn path_text(j: JsonView, path: Seq<char>) -> Option<Seq<char>> {
    match at_path(j, split_on(path, '.')) {
        Some(found) => value_text(found, value_notation(found)),
        None => None,
    }
}

/// The text under a path in dot notation, such as `data.message.text`.
pub fn extract_by_path(value: &JsonValue, path: &str) -> (r: Option<String>)
    ensures
        r.deep_view() == path_text(value@, path@),
        match at_path(value@, split_on(path@, '.')) {
            Some(JsonView::Number(NumberView::Unsigned(n))) => r.deep_view() == Some(decimal(n)),
            _ => true,
        },
{
    match value_at_path(value, path) {
        Some(found) => text_of_value(found, notation(found).as_str()),
        None => None,
    }
}

/// The text in a payload before trimming, if there is one.
pub open spec fn raw_message(mapping: WebhookMapping, payload: JsonView) -> Option<Seq<char>> {
    match mapping.json_path {
        Some(path) => path_text(payload, path@),
        None => payload.text_member(mapping.text_field@),
    }
}

/// The message that a mapping makes of a text, if it is one: the trimmed text,
/// set into the template where there is one.
pub open spec fn message_of(mapping: WebhookMapping, raw: Option<Seq<char>>) -> Option<Seq<char>> {
    match raw {
        Some(raw) => if is_blank(raw) {
            None
        } else {
            match mapping.template {
                Some(template) => Some(replaced(template@, "{text}"@, trimmed(raw))),
                None => Some(trimmed(raw)),
            }
        },
        None => None,
    }
}

/// The message that a mapping finds in a payload, if it finds one.
pub open spec fn message_in(mapping: WebhookMapping, payload: JsonView) -> Option<Seq<char>> {
    message_of(mapping, raw_message(mapping, payload))
}

/// The field that a mapping reads.
pub open spec fn field_of(mapping: WebhookMapping) -> Seq<char> {
    match mapping.json_path {
        Some(path) => path@,
        None => mapping.text_field@,
    }
}

/// Why a text is no message, if it is none.
pub open spec fn text_missing(mapping: WebhookMapping, raw: Option<Seq<char>>) -> Option<
    ErrorView,
> {
    if message_of(mapping, raw) is None {
        Some(
            ErrorView::InvalidRequest(
                "webhook payload must include a non-empty '"@ + field_of(mapping) + "' field"@,
            ),
        )
    } else {
        None
    }
}

/// Why a payload holds no message, if it holds none.
pub open spec fn message_missing(mapping: WebhookMapping, payload: JsonView) -> Option<ErrorView> {
    text_missing(mapping, raw_message(mapping, payload))
}

/// The message that a mapping makes of the text that it found.
pub fn message_from_text(mapping: &WebhookMapping, raw: Option<String>) -> (r: Result<
    String,
    FrankClawError,
>)
    ensures
        outcome_is(r, text_missing(*mapping, raw.deep_view())),
        r is Ok ==> Some(r->Ok_0@) == message_of(*mapping, raw.deep_view()),
{
    let field = match &mapping.json_path {
        Some(path) => path.as_str(),
        None => mapping.text_field.as_str(),
    };
    if let Some(raw) = raw {
        let text = raw.as_str().trim();
        if !text.is_empty() {
            return match &mapping.template {
                Some(template) => {
                    proof {
                        reveal_strlit("{text}");
                    }
                    Ok(replace(template.as_str(), "{text}", text))
                },
                None => Ok(text.to_owned()),
            };
        }
    }
    Err(
        invalid_request(
            cat3("webhook payload must include a non-empty '", field, "' field").as_str(),
        ),
    )
}

/// The message that a mapping finds in a payload.
pub fn extract_message(mapping: &WebhookMapping, payload: &JsonValue) -> (r: Result<
    String,
    FrankClawError,
>)
    ensures
        outcome_is(r, message_missing(*mapping, payload@)),
        r is Ok ==> Some(r->Ok_0@) == message_in(*mapping, payload@),
{
    let raw = match &mapping.json_path {
        Some(path) => extract_by_path(payload, path.as_str()),
        None => match payload.get_str(mapping.text_field.as_str()) {
            Some(s) => Some(s.to_owned()),
            None => None,
        },
    };
    assert(raw.deep_view() == raw_message(*mapping, payload@));
    message_from_text(mapping, raw)
}

/// Why a request to `id` cannot be resolved, if it cannot.
pub open spec fn request_problem(
    hooks: HooksConfig,
    id: Seq<char>,
    payload: JsonView,
) -> Option<ErrorView> {
    if mapping_missing(hooks, id) is Some {
        mapping_missing(hooks, id)
    } else {
        message_missing(mapping_for(hooks, id)->0, payload)
    }
}

/// Finds the mapping and the message of a webhook request.
pub fn resolve_request(config: &FrankClawConfig, mapping_id: &str, payload: &JsonValue) -> (r:
    Result<ResolvedWebhookRequest, FrankClawError>)
    ensures
        outcome_is(r, request_problem(config.hooks, mapping_id@, payload@)),
        r is Ok ==> Some(r->Ok_0.mapping) == mapping_for(config.hooks, mapping_id@) && Some(
            r->Ok_0.message@,
        ) == message_in(r->Ok_0.mapping, payload@),
{
    match resolve_mapping(config, mapping_id) {
        Ok(mapping) => match extract_message(&mapping, payload) {
            Ok(message) => Ok(ResolvedWebhookRequest { mapping, message }),
            Err(err) => Err(err),
        },
        Err(err) => Err(err),
    }
}

/// The turn that a webhook request asks for.
pub fn execute_request(request: ResolvedWebhookRequest) -> (r: ChatRequest)
    ensures
        r.agent_id == request.mapping.agent_id,
        r.session_key == request.mapping.session_key,
        r.message == request.message,
        r.is_plain(),
{
    ChatRequest::plain(request.mapping.agent_id, request.mapping.session_key, request.message)
}

/// Why a timestamp header is turned down at `now`, if it is. The header may be
/// missing.
pub open spec fn timestamp_problem(header: Option<Seq<char>>, now: int) -> Option<ErrorView> {
    if header is None || is_blank(header->0) {
        None
    } else {
        let text = trimmed(header->0);
        match signed_of(text) {
            Some(secs) => if secs < i64::MIN || secs > i64::MAX {
                Some(ErrorView::InvalidRequest("invalid webhook timestamp: '"@ + text + "'"@))
            } else if now - secs > MAX_WEBHOOK_AGE_SECS || now - secs < -MAX_WEBHOOK_AGE_SECS {
                Some(ErrorView::AuthFailed)
            } else {
                None
            },
            None => Some(
                ErrorView::InvalidRequest("invalid webhook timestamp: '"@ + text + "'"@),
            ),
        }
    }
}

/// Checks that a webhook's timestamp is within five minutes of `now`, both in
/// seconds since the Unix epoch. A missing timestamp is accepted.
pub fn verify_timestamp(timestamp_header: Option<&str>, now: i64) -> (r: Result<(), FrankClawError>)
    ensures
        outcome_is(
            r,
            timestamp_problem(
                match timestamp_header {
                    Some(s) => Some(s@),
                    None => None,
                },
                now as int,
            ),
        ),
{
    let text = match timestamp_header {
        Some(header) => header.trim(),
        None => {
            return Ok(());
        },
    };
    if text.is_empty() {
        return Ok(());
    }
    match parse_signed(text) {
        Some(secs) => {
            let age: i128 = now as i128 - secs as i128;
            if age > MAX_WEBHOOK_AGE_SECS as i128 {
                Err(FrankClawError::AuthFailed)
            } else if age < -(MAX_WEBHOOK_AGE_SECS as i128) {
                Err(FrankClawError::AuthFailed)
            } else {
                Ok(())
            }
        },
        None => Err(
            invalid_request(cat3("invalid webhook timestamp: '", text, "'").as_str()),
        ),
    }
}

} // verus!
