//! What webhooks are for: a signed and dated body, sent to a configured name,
//! becomes the turn that the mapping of that name asks for.

use crate::config::{
    foreign_session, mappings_problem, FrankClawConfig, HooksConfig, RawMapping, WebhookMapping,
};
use crate::error::{ErrorView, FrankClawError};
use crate::gateway::chat::{ChatRequest, ChatResponse};
use crate::gateway::http::{
    webhook_done, webhook_gate, webhook_handler, webhook_payload, Headers, HttpReply, WebhookStep,
};
use crate::gateway::webhooks::{
    at_path, execute_request, extract_by_path, extract_message, mapping_named, message_from_text,
    resolve_mapping, resolve_request, value_at_path, verify_signature, verify_timestamp,
    ResolvedWebhookRequest,
};
use crate::json::{json_in, parsed_view, JsonValue};
use crate::laws::terms::{inner, said};
use crate::laws::text::{lemma_decimal_reads_back, lemma_split_first};
use crate::signature::{
    claimed_tag, decode_hex, encode_hex, encode_signature, hmac_sha256, law_hex_round_trip,
    law_signature_holds, signature_digits, signature_matches,
};
use crate::text::{decimal, is_blank, replace, signed_of, split_on, trimmed};
use vstd::prelude::*;

verus! {

proof fn lemma_first_named(mappings: Seq<RawMapping>, id: Seq<char>, i: int)
    requires
        0 <= i <= mappings.len(),
    ensures
        mapping_named(mappings, id, i) is Some ==> exists|k: int|
            i <= k < mappings.len() && #[trigger] mappings[k] == RawMapping::Mapping(
                mapping_named(mappings, id, i)->0,
            ) && mapping_named(mappings, id, i)->0.id@ == id && forall|j: int|
                i <= j < k && (#[trigger] mappings[j]) is Mapping
                    ==> mappings[j]->Mapping_0.id@ != id,
        mapping_named(mappings, id, i) is None ==> forall|k: int|
            i <= k < mappings.len() && (#[trigger] mappings[k]) is Mapping
                ==> mappings[k]->Mapping_0.id@ != id,
    decreases mappings.len() - i,
{
    if i < mappings.len() {
        if mappings[i] is Mapping && mappings[i]->Mapping_0.id@ == id {
            assert(mappings[i] == RawMapping::Mapping(mapping_named(mappings, id, i)->0));
        } else {
            lemma_first_named(mappings, id, i + 1);
            let found = mapping_named(mappings, id, i + 1);
            if found is Some {
                let k = choose|k: int|
                    i + 1 <= k < mappings.len() && #[trigger] mappings[k] == RawMapping::Mapping(
                        found->0,
                    ) && found->0.id@ == id && forall|j: int|
                        i + 1 <= j < k && (#[trigger] mappings[j]) is Mapping
                            ==> mappings[j]->Mapping_0.id@ != id;
                assert(mappings[k] == RawMapping::Mapping(mapping_named(mappings, id, i)->0));
            }
        }
    }
}

/// A mapping that is found has the name that was asked for, is one of the
/// configured mappings, and none before it has that name.
pub proof fn law_mapping_found(
    config: &FrankClawConfig,
    id: &str,
    r: Result<WebhookMapping, FrankClawError>,
)
    requires
        call_ensures(resolve_mapping, (config, id), r),
        r is Ok,
    ensures
        config.hooks.enabled,
        r->Ok_0.id@ == id@,
        exists|k: int|
            0 <= k < config.hooks.mappings@.len() && #[trigger] config.hooks.mappings@[k]
                == RawMapping::Mapping(r->Ok_0) && forall|j: int|
                0 <= j < k && (#[trigger] config.hooks.mappings@[j]) is Mapping
                    ==> config.hooks.mappings@[j]->Mapping_0.id@ != id@,
{
    lemma_first_named(config.hooks.mappings@, id@, 0);
}

/// Where the hooks are on and in order, a name is served exactly if a mapping
/// has it; a name that no mapping has is named in the refusal.
pub proof fn law_mapping_served(
    config: &FrankClawConfig,
    id: &str,
    parsed: Result<Vec<WebhookMapping>, FrankClawError>,
    r: Result<WebhookMapping, FrankClawError>,
)
    requires
        call_ensures(HooksConfig::parsed_mappings, (&config.hooks,), parsed),
        call_ensures(resolve_mapping, (config, id), r),
    ensures
        parsed is Err ==> r is Err && r->Err_0@ == parsed->Err_0@,
        parsed is Ok ==> (r is Ok <==> exists|k: int|
            0 <= k < parsed->Ok_0@.len() && (#[trigger] parsed->Ok_0@[k]).id@ == id@),
        parsed is Ok && r is Err ==> r->Err_0@ == ErrorView::InvalidRequest(
            "unknown webhook mapping '"@ + id@ + "'"@,
        ),
{
    let raw = config.hooks.mappings@;
    lemma_first_named(raw, id@, 0);
    if parsed is Ok && config.hooks.enabled {
        let list = parsed->Ok_0@;
        if r is Ok {
            let k = choose|k: int|
                0 <= k < raw.len() && #[trigger] raw[k] == RawMapping::Mapping(r->Ok_0);
            assert(raw[k] == RawMapping::Mapping(list[k]));
            assert(list[k].id@ == id@);
        } else {
            assert forall|k: int| 0 <= k < list.len() implies (#[trigger] list[k]).id@
                != id@ by {
                assert(raw[k] == RawMapping::Mapping(list[k]));
            }
        }
    }
}

proof fn lemma_mappings_in_order(mappings: Seq<RawMapping>, i: int, k: int)
    requires
        0 <= i <= k < mappings.len(),
        mappings_problem(mappings, i) is None,
    ensures
        mappings_problem(mappings, k) is None,
        mappings[k] is Mapping,
        !is_blank(mappings[k]->Mapping_0.id@),
        !is_blank(mappings[k]->Mapping_0.text_field@),
        forall|j: int|
            0 <= j < k && (#[trigger] mappings[j]) is Mapping ==> mappings[j]->Mapping_0.id@
                != mappings[k]->Mapping_0.id@,
    decreases k - i,
{
    if i < k {
        lemma_mappings_in_order(mappings, i + 1, k);
    }
}

/// Hooks that are on and in order have a token and a mapping; their mappings
/// come out as they are configured, each with a name of its own and a text
/// field. Hooks that are off have none.
pub proof fn law_mappings_in_order(
    hooks: &HooksConfig,
    r: Result<Vec<WebhookMapping>, FrankClawError>,
)
    requires
        call_ensures(HooksConfig::parsed_mappings, (hooks,), r),
    ensures
        !hooks.enabled ==> r is Ok && r->Ok_0@.len() == 0,
        hooks.enabled && (hooks.token is None || is_blank(hooks.token->0@)) ==> r is Err,
        hooks.enabled && hooks.mappings@.len() == 0 ==> r is Err,
        hooks.enabled && r is Ok ==> r->Ok_0@.len() == hooks.mappings@.len(),
        r is Ok ==> forall|k: int|
            0 <= k < r->Ok_0@.len() ==> hooks.mappings@[k] == RawMapping::Mapping(
                #[trigger] r->Ok_0@[k],
            ) && !is_blank(r->Ok_0@[k].id@) && !is_blank(r->Ok_0@[k].text_field@),
        r is Ok ==> forall|j: int, k: int|
            0 <= j < k < r->Ok_0@.len() ==> (#[trigger] r->Ok_0@[j]).id@ != (
            #[trigger] r->Ok_0@[k]).id@,
{
    if hooks.enabled && r is Ok {
        let raw = hooks.mappings@;
        assert forall|k: int| 0 <= k < r->Ok_0@.len() implies !is_blank(
            (#[trigger] r->Ok_0@[k]).id@,
        ) && !is_blank(r->Ok_0@[k].text_field@) by {
            lemma_mappings_in_order(raw, 0, k);
            assert(raw[k] == RawMapping::Mapping(r->Ok_0@[k]));
        }
        assert forall|j: int, k: int| 0 <= j < k < r->Ok_0@.len() implies (
        #[trigger] r->Ok_0@[j]).id@ != (#[trigger] r->Ok_0@[k]).id@ by {
            lemma_mappings_in_order(raw, 0, k);
            assert(raw[k] == RawMapping::Mapping(r->Ok_0@[k]));
            assert(raw[j] == RawMapping::Mapping(r->Ok_0@[j]));
        }
    }
}

/// One mapping with a name and a text field and no agent of its own is in order.
pub proof fn law_one_mapping_is_enough(
    hooks: &HooksConfig,
    mapping: WebhookMapping,
    r: Result<Vec<WebhookMapping>, FrankClawError>,
)
    requires
        call_ensures(HooksConfig::parsed_mappings, (hooks,), r),
        hooks.token is Some && !is_blank(hooks.token->0@),
        hooks.mappings@ == seq![RawMapping::Mapping(mapping)],
        !is_blank(mapping.id@) && !is_blank(mapping.text_field@),
        mapping.agent_id is None || mapping.session_key is None,
    ensures
        r is Ok,
{
    assert(!foreign_session(mapping));
    assert(mappings_problem(hooks.mappings@, 1) is None);
    assert(mappings_problem(hooks.mappings@, 0) is None);
}

/// A path of one key leads to the value under that key.
pub proof fn law_one_key(value: &JsonValue, key: &str, r: Option<&JsonValue>)
    requires
        call_ensures(value_at_path, (value, key), r),
        !key@.contains('.'),
        !is_blank(key@),
    ensures
        r is Some <==> inner(value@, trimmed(key@)) is Some,
        r is Some ==> r->0@ == inner(value@, trimmed(key@))->0,
{
    lemma_split_first(key@, Seq::empty(), '.');
    let keys = split_on(key@, '.');
    assert(keys =~= seq![key@]);
    assert(keys.drop_first() =~= Seq::empty());
    if inner(value@, trimmed(key@)) is Some {
        assert(at_path(inner(value@, trimmed(key@))->0, keys.drop_first()) == Some(
            inner(value@, trimmed(key@))->0,
        ));
    }
}

/// A longer path leads where its rest leads from the value under its first key.
pub proof fn law_path_goes_on(
    value: &JsonValue,
    next: &JsonValue,
    first: Seq<char>,
    rest: &str,
    path: &str,
    r: Option<&JsonValue>,
    r_next: Option<&JsonValue>,
)
    requires
        call_ensures(value_at_path, (value, path), r),
        call_ensures(value_at_path, (next, rest), r_next),
        path@ == first + seq!['.'] + rest@,
        !first.contains('.'),
        !is_blank(first),
        inner(value@, trimmed(first)) == Some(next@),
    ensures
        r is Some <==> r_next is Some,
        r is Some ==> r->0@ == r_next->0@,
{
    lemma_split_first(first, rest@, '.');
    let keys = split_on(path@, '.');
    assert(keys.drop_first() =~= split_on(rest@, '.'));
}

/// A path whose first key is blank or leads nowhere leads nowhere.
pub proof fn law_path_ends(
    value: &JsonValue,
    first: Seq<char>,
    rest: Seq<char>,
    path: &str,
    r: Option<&JsonValue>,
)
    requires
        call_ensures(value_at_path, (value, path), r),
        path@ == first || path@ == first + seq!['.'] + rest,
        !first.contains('.'),
        is_blank(first) || inner(value@, trimmed(first)) is None,
    ensures
        r is None,
{
    lemma_split_first(first, rest, '.');
    let keys = split_on(path@, '.');
    assert(keys[0] == first);
}

/// What a path leads to is read as text: a string as it is, a whole number by
/// its digits, null and nothing not at all, and anything else somehow.
pub proof fn law_text_at_path(
    value: &JsonValue,
    path: &str,
    found: Option<&JsonValue>,
    r: Option<String>,
)
    requires
        call_ensures(value_at_path, (value, path), found),
        call_ensures(extract_by_path, (value, path), r),
    ensures
        found is None || found->0@ is Null ==> r is None,
        found is Some && !(found->0@ is Null) ==> r is Some,
        found is Some && found->0@ is Text ==> r->0@ == found->0@->Text_0,
        found is Some && found->0@ is Number && found->0@->Number_0 is Unsigned ==> signed_of(r->0@)
            == Some(found->0@->Number_0->Unsigned_0 as int),
{
    if found is Some && found->0@ is Number && found->0@->Number_0 is Unsigned {
        let n = found->0@->Number_0->Unsigned_0;
        assert(r->0@ == decimal(n));
        lemma_decimal_reads_back(n);
        assert(signed_of(decimal(n)) == Some(n as int));
    }
}

/// Without a template the message is the text, trimmed; a text that is missing
/// or blank is none, and the refusal names the field.
pub proof fn law_message_is_the_text(
    mapping: &WebhookMapping,
    raw: Option<String>,
    r: Result<String, FrankClawError>,
)
    requires
        call_ensures(message_from_text, (mapping, raw), r),
    ensures
        r is Ok <==> raw is Some && !is_blank(raw->0@),
        r is Ok && mapping.template is None ==> r->Ok_0@ == trimmed(raw->0@),
        r is Err && mapping.json_path is None ==> r->Err_0@ == ErrorView::InvalidRequest(
            "webhook payload must include a non-empty '"@ + mapping.text_field@ + "' field"@,
        ),
        r is Err && mapping.json_path is Some ==> r->Err_0@ == ErrorView::InvalidRequest(
            "webhook payload must include a non-empty '"@ + mapping.json_path->0@ + "' field"@,
        ),
{
}

/// With a template the message is the template with the trimmed text in the
/// place of `{text}`.
pub proof fn law_template_takes_the_text(
    mapping: &WebhookMapping,
    raw: Option<String>,
    template: &str,
    mark: &str,
    text: &str,
    set: String,
    r: Result<String, FrankClawError>,
)
    requires
        call_ensures(message_from_text, (mapping, raw), r),
        mapping.template is Some,
        template@ == mapping.template->0@,
        raw is Some && !is_blank(raw->0@),
        text@ == trimmed(raw->0@),
        mark@ == "{text}"@,
        call_ensures(replace, (template, mark, text), set),
    ensures
        r is Ok,
        r->Ok_0@ == set@,
{
}

/// The text comes from the path of the mapping where it has one, else from its
/// text field.
pub proof fn law_where_the_text_stands(
    mapping: &WebhookMapping,
    payload: &JsonValue,
    path: &str,
    at_path: Option<String>,
    from_path: Result<String, FrankClawError>,
    field: Option<String>,
    from_field: Result<String, FrankClawError>,
    r: Result<String, FrankClawError>,
)
    requires
        call_ensures(extract_message, (mapping, payload), r),
        mapping.json_path is Some ==> path@ == mapping.json_path->0@,
        call_ensures(extract_by_path, (payload, path), at_path),
        call_ensures(message_from_text, (mapping, at_path), from_path),
        field.deep_view() == said(payload@, mapping.text_field@),
        call_ensures(message_from_text, (mapping, field), from_field),
    ensures
        mapping.json_path is Some ==> (r is Ok <==> from_path is Ok) && (r is Ok ==> r->Ok_0@
            == from_path->Ok_0@),
        mapping.json_path is None ==> (r is Ok <==> from_field is Ok) && (r is Ok ==> r->Ok_0@
            == from_field->Ok_0@),
{
}

/// A request is resolved exactly if its mapping is and its message is there;
/// it then carries both, and the turn takes agent, session and message from it
/// and sets nothing else.
pub proof fn law_request_becomes_a_turn(
    config: &FrankClawConfig,
    id: &str,
    payload: &JsonValue,
    mapping: Result<WebhookMapping, FrankClawError>,
    message: Result<String, FrankClawError>,
    r: Result<ResolvedWebhookRequest, FrankClawError>,
    turn: ChatRequest,
)
    requires
        call_ensures(resolve_mapping, (config, id), mapping),
        mapping is Ok ==> call_ensures(extract_message, (&mapping->Ok_0, payload), message),
        call_ensures(resolve_request, (config, id, payload), r),
        r is Ok ==> call_ensures(execute_request, (r->Ok_0,), turn),
    ensures
        r is Ok <==> mapping is Ok && message is Ok,
        mapping is Err ==> r is Err && r->Err_0@ == mapping->Err_0@,
        mapping is Ok && message is Err ==> r is Err && r->Err_0@ == message->Err_0@,
        r is Ok ==> r->Ok_0.mapping == mapping->Ok_0 && r->Ok_0.message@ == message->Ok_0@,
        r is Ok ==> turn.agent_id == mapping->Ok_0.agent_id && turn.session_key
            == mapping->Ok_0.session_key && turn.message@ == message->Ok_0@,
        r is Ok ==> turn.attachments@.len() == 0 && turn.model_id is None && turn.max_tokens is None
            && turn.temperature is None && turn.thinking_budget is None && turn.channel_id is None,
{
}

/// A timestamp passes if it is missing, blank, or a number of seconds at most
/// five minutes away from the clock in either direction.
pub proof fn law_timestamp_is_near(
    header: &str,
    now: i64,
    secs: i64,
    with: Result<(), FrankClawError>,
    without: Result<(), FrankClawError>,
)
    requires
        call_ensures(verify_timestamp, (Some(header), now), with),
        call_ensures(verify_timestamp, (None, now), without),
    ensures
        without is Ok,
        is_blank(header@) ==> with is Ok,
        !is_blank(header@) && signed_of(trimmed(header@)) == Some(secs as int) ==> (with is Ok <==> -300
            <= now - secs <= 300),
        !is_blank(header@) && signed_of(trimmed(header@)) is None ==> with is Err,
{
}

/// A text counts as the signature of a body under a secret exactly if its
/// digits, behind an optional `sha256=`, are the body's HMAC under the secret.
pub proof fn law_signature_matches(
    secret: &str,
    body: &[u8],
    digits: &str,
    header: &str,
    tag: Option<Vec<u8>>,
    r: bool,
)
    requires
        call_ensures(decode_hex, (digits,), tag),
        header@ == "sha256="@ + digits@,
        call_ensures(signature_matches, (secret, body, header), r),
    ensures
        r <==> tag is Some && tag->0@ == hmac_sha256(vstd::utf8::encode_utf8(secret@), body@),
{
    assert("sha256="@.is_prefix_of(header@));
    assert(signature_digits(header@) =~= digits@);
    if tag is Some {
        assert(claimed_tag(header@) == Some(tag->0@));
    }
}

/// Bytes written in hexadecimal read back.
pub proof fn law_hexadecimal_reads_back(
    bytes: &Vec<u8>,
    text: &str,
    written: String,
    r: Option<Vec<u8>>,
)
    requires
        call_ensures(encode_hex, (bytes,), written),
        text@ == written@,
        call_ensures(decode_hex, (text,), r),
    ensures
        r is Some,
        r->0@ == bytes@,
{
    law_hex_round_trip(bytes@);
}

/// Hooks that are off turn every body down, and so do hooks without a token. A
/// body without a signature is turned down, and one with a signature is
/// accepted exactly if it is one for the token and the body.
pub proof fn law_signed_bodies(
    config: &FrankClawConfig,
    body: &[u8],
    header: &str,
    token: &str,
    holds: bool,
    made: String,
    with: Result<(), FrankClawError>,
    without: Result<(), FrankClawError>,
)
    requires
        call_ensures(verify_signature, (config, body, Some(header)), with),
        call_ensures(verify_signature, (config, body, None), without),
        config.hooks.token is Some ==> token@ == config.hooks.token->0@,
        call_ensures(signature_matches, (token, body, header), holds),
        call_ensures(encode_signature, (token, body), made),
    ensures
        without is Err,
        !config.hooks.enabled ==> with is Err && with->Err_0@ == ErrorView::Forbidden("webhooks"@),
        config.hooks.token is None || is_blank(token@) ==> with is Err,
        config.hooks.enabled && config.hooks.token is Some && !is_blank(token@) ==> (with is Ok
            <==> holds) && (header@ == made@ ==> with is Ok) && (with is Err ==> with->Err_0@
            is AuthFailed) && without->Err_0@ is AuthRequired,
{
    law_signature_holds(token@, body@);
}

/// A body is read only where it is no longer than either limit, and its
/// timestamp and its signature pass; each failure has its status.
pub proof fn law_gate(
    config: &FrankClawConfig,
    headers: &Headers,
    body: &[u8],
    now: i64,
    timestamp: Option<&str>,
    signature: Option<&str>,
    dated: Result<(), FrankClawError>,
    signed: Result<(), FrankClawError>,
    name_t: &str,
    name_s: &str,
    r: Option<HttpReply>,
)
    requires
        name_t@ == "x-frankclaw-timestamp"@,
        name_s@ == "x-frankclaw-signature"@,
        call_ensures(Headers::get, (headers, name_t), timestamp),
        call_ensures(Headers::get, (headers, name_s), signature),
        call_ensures(verify_timestamp, (timestamp, now), dated),
        call_ensures(verify_signature, (config, body, signature), signed),
        call_ensures(webhook_gate, (config, headers, body, now), r),
    ensures
        ({
            let short = body@.len() <= config.security.max_webhook_body_bytes && (
            config.hooks.max_body_bytes is Some ==> body@.len() <= config.hooks.max_body_bytes->0);
            &&& r is None <==> short && dated is Ok && signed is Ok
            &&& !short ==> r->0 is Document && r->0->Document_status == 413
            &&& short && dated is Err ==> r->0 is Failure && r->0->Failure_error@
                == dated->Err_0@ && r->0->fallback == 401
            &&& short && dated is Ok && signed is Err ==> r->0 is Failure
                && r->0->Failure_error@ == signed->Err_0@ && r->0->fallback == 401
        }),
{
}

/// A body that is JSON becomes the turn of the mapping that was asked for, or
/// the reason why there is none.
pub proof fn law_body_becomes_a_turn(
    config: &FrankClawConfig,
    id: &str,
    payload: JsonValue,
    resolved: Result<ResolvedWebhookRequest, FrankClawError>,
    complaint: String,
    r: WebhookStep,
    bad: WebhookStep,
)
    requires
        call_ensures(resolve_request, (config, id, &payload), resolved),
        call_ensures(
            webhook_payload,
            (config, id, Result::<JsonValue, String>::Ok(payload)),
            r,
        ),
        call_ensures(
            webhook_payload,
            (config, id, Result::<JsonValue, String>::Err(complaint)),
            bad,
        ),
    ensures
        r is Turn <==> resolved is Ok,
        r is Turn ==> r->Turn_0.message@ == resolved->Ok_0.message@ && r->Turn_0.agent_id
            == resolved->Ok_0.mapping.agent_id && r->Turn_0.session_key
            == resolved->Ok_0.mapping.session_key,
        r is Reply ==> r->Reply_0 is Failure && r->Reply_0->Failure_error@ == resolved->Err_0@
            && r->Reply_0->fallback == 400,
        bad is Reply && bad->Reply_0 is Document && bad->Reply_0->Document_status == 400,
        said(bad->Reply_0->body@, "error"@) == Some("invalid webhook JSON: "@ + complaint@),
{
    assert("invalid "@ + "webhook"@ + " JSON: "@ + complaint@ =~= "invalid webhook JSON: "@
        + complaint@) by {
        reveal_strlit("invalid ");
        reveal_strlit("webhook");
        reveal_strlit(" JSON: ");
        reveal_strlit("invalid webhook JSON: ");
    }
}

/// A request that is stopped before its body is read is answered why; any other
/// one becomes what its body becomes.
pub proof fn law_webhook(
    config: &FrankClawConfig,
    id: &str,
    headers: &Headers,
    body: &[u8],
    now: i64,
    stopped: Option<HttpReply>,
    parsed: Result<JsonValue, String>,
    inside: WebhookStep,
    r: WebhookStep,
)
    requires
        call_ensures(webhook_gate, (config, headers, body, now), stopped),
        parsed_view(parsed) == json_in(body@),
        call_ensures(webhook_payload, (config, id, parsed), inside),
        call_ensures(webhook_handler, (config, id, headers, body, now), r),
    ensures
        stopped is Some ==> r is Reply && r->Reply_0@ == stopped->0@,
        stopped is None ==> (r is Turn <==> inside is Turn),
        stopped is None && r is Turn ==> r->Turn_0.message@ == inside->Turn_0.message@
            && r->Turn_0.agent_id == inside->Turn_0.agent_id && r->Turn_0.session_key
            == inside->Turn_0.session_key,
        stopped is None && r is Reply ==> r->Reply_0@ == inside->Reply_0@,
{
}

/// The caller is told the answer of the turn, its session and its model.
pub proof fn law_answer_goes_back(
    response: ChatResponse,
    error: FrankClawError,
    r: HttpReply,
    failed: HttpReply,
)
    requires
        call_ensures(webhook_done, (Result::<ChatResponse, FrankClawError>::Ok(response),), r),
        call_ensures(webhook_done, (Result::<ChatResponse, FrankClawError>::Err(error),), failed),
    ensures
        r is Document && r->Document_status == 200,
        said(r->body@, "content"@) == Some(response.content@),
        said(r->body@, "session_key"@) == Some(response.session_key@),
        said(r->body@, "model_id"@) == Some(response.model_id@),
        failed is Failure && failed->Failure_error@ == error@ && failed->fallback == 500,
{
    reveal_strlit("content");
    reveal_strlit("session_key");
    reveal_strlit("model_id");
    assert("content"@.len() == 7);
    assert("session_key"@.len() == 11);
    assert("model_id"@.len() == 8);
}

/// A timestamp that is too far away fails the check, and one that is no number
/// of seconds is a bad request.
pub proof fn law_bad_timestamps(header: &str, now: i64, secs: int, r: Result<(), FrankClawError>)
    requires
        call_ensures(verify_timestamp, (Some(header), now), r),
        !is_blank(header@),
    ensures
        signed_of(trimmed(header@)) is None ==> r is Err && r->Err_0 is InvalidRequest,
        signed_of(trimmed(header@)) == Some(secs) && (secs < i64::MIN || secs > i64::MAX) ==> r
            is Err && r->Err_0 is InvalidRequest,
        signed_of(trimmed(header@)) == Some(secs) && i64::MIN <= secs <= i64::MAX && (now - secs
            > 300 || now - secs < -300) ==> r is Err && r->Err_0 is AuthFailed,
{
}

/// A signature may be given without the name of its method.
pub proof fn law_bare_signatures(
    secret: &str,
    body: &[u8],
    header: &str,
    named: &str,
    r: bool,
    r_named: bool,
)
    requires
        named@ == "sha256="@ + header@,
        !"sha256="@.is_prefix_of(header@),
        call_ensures(signature_matches, (secret, body, header), r),
        call_ensures(signature_matches, (secret, body, named), r_named),
    ensures
        r == r_named,
{
    assert("sha256="@.is_prefix_of(named@));
    assert(signature_digits(named@) =~= header@);
}

proof fn lemma_mappings_pass(mappings: Seq<RawMapping>, i: int)
    requires
        0 <= i <= mappings.len(),
        forall|k: int| 0 <= k < mappings.len() ==> mapping_in_order(#[trigger] mappings[k]),
        forall|j: int, k: int|
            0 <= j < k < mappings.len() ==> (#[trigger] mappings[j])->Mapping_0.id@ != (
            #[trigger] mappings[k])->Mapping_0.id@,
    ensures
        mappings_problem(mappings, i) is None,
    decreases mappings.len() - i,
{
    if i < mappings.len() {
        assert(mapping_in_order(mappings[i]));
        assert(!foreign_session(mappings[i]->Mapping_0));
        assert forall|k: int|
            0 <= k < i && (#[trigger] mappings[k]) is Mapping implies mappings[k]->Mapping_0.id@
            != mappings[i]->Mapping_0.id@ by {}
        lemma_mappings_pass(mappings, i + 1);
    }
}

/// True of a mapping with a name and a text field that does not pin both an agent
/// and a session.
pub open spec fn mapping_in_order(raw: RawMapping) -> bool {
    &&& raw is Mapping
    &&& !is_blank(raw->Mapping_0.id@)
    &&& !is_blank(raw->Mapping_0.text_field@)
    &&& raw->Mapping_0.agent_id is None || raw->Mapping_0.session_key is None
}

/// Hooks with a token and mappings in order, each with a name of its own, are in
/// order, and each of their names is served by its own mapping.
pub proof fn law_every_mapping_is_served(
    config: &FrankClawConfig,
    id: &str,
    at: int,
    r: Result<WebhookMapping, FrankClawError>,
)
    requires
        call_ensures(resolve_mapping, (config, id), r),
        config.hooks.enabled,
        config.hooks.token is Some,
        !is_blank(config.hooks.token->0@),
        forall|k: int|
            0 <= k < config.hooks.mappings@.len() ==> mapping_in_order(
                #[trigger] config.hooks.mappings@[k],
            ),
        forall|j: int, k: int|
            0 <= j < k < config.hooks.mappings@.len() ==> (
            #[trigger] config.hooks.mappings@[j])->Mapping_0.id@ != (
            #[trigger] config.hooks.mappings@[k])->Mapping_0.id@,
        0 <= at < config.hooks.mappings@.len(),
        config.hooks.mappings@[at]->Mapping_0.id@ == id@,
    ensures
        r is Ok,
        config.hooks.mappings@[at] == RawMapping::Mapping(r->Ok_0),
{
    let raw = config.hooks.mappings@;
    lemma_mappings_pass(raw, 0);
    lemma_first_named(raw, id@, 0);
    assert(mapping_in_order(raw[at]));
    let k = choose|k: int| 0 <= k < raw.len() && #[trigger] raw[k] == RawMapping::Mapping(r->Ok_0);
    if k < at {
        assert(raw[k]->Mapping_0.id@ != raw[at]->Mapping_0.id@);
    }
    if at < k {
        assert(raw[at]->Mapping_0.id@ != raw[k]->Mapping_0.id@);
    }
}

} // verus!
