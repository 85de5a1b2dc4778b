//! The master key, and hiding secrets from what is shown.

use crate::channels::Environment;
use crate::json::{lemma_items, JsonObject, JsonValue, JsonView};
use crate::text::{blank, is_blank, trimmed};
use base64::Engine;
use vstd::prelude::*;
use vstd::string::*;

verus! {

/// What `base64` with the standard alphabet and padding decodes a text to; none
/// where it refuses the text.
pub uninterp spec fn standard_base64(text: Seq<char>) -> Option<Seq<u8>>;

/// What `base64` with the URL-safe alphabet and without padding decodes a text
/// to; none where it refuses the text.
pub uninterp spec fn url_safe_base64(text: Seq<char>) -> Option<Seq<u8>>;

/// Calls `Engine::decode` of the `base64` crate on its engine `STANDARD`. The
/// result is a function of the text, which `standard_base64` names.
#[verifier::external_body]
fn decode_standard(text: &str) -> (r: Option<Vec<u8>>)
    ensures
        r.deep_view() == standard_base64(text@),
{
    base64::engine::general_purpose::STANDARD.decode(text).ok()
}

/// Calls `Engine::decode` of the `base64` crate on its engine
/// `URL_SAFE_NO_PAD`. The result is a function of the text, which
/// `url_safe_base64` names.
#[verifier::external_body]
fn decode_url_safe(text: &str) -> (r: Option<Vec<u8>>)
    ensures
        r.deep_view() == url_safe_base64(text@),
{
    base64::engine::general_purpose::URL_SAFE_NO_PAD.decode(text).ok()
}

/// What is wrong with the master key.
#[derive(Clone, Copy, Debug, PartialEq, Eq, Structural)]
pub enum KeyProblem {
    Empty,
    NotBase64,
    WrongLength,
}

/// A problem with the master key in words.
pub open spec fn key_problem_text(problem: KeyProblem) -> Seq<char> {
    match problem {
        KeyProblem::Empty => "FRANKCLAW_MASTER_KEY is set but empty"@,
        KeyProblem::NotBase64 => "FRANKCLAW_MASTER_KEY must be valid base64"@,
        KeyProblem::WrongLength => "FRANKCLAW_MASTER_KEY must decode to exactly 32 bytes"@,
    }
}

impl KeyProblem {
    /// The problem in words.
    pub fn message(self) -> (r: &'static str)
        ensures
            r@ == key_problem_text(self),
    {
        match self {
            KeyProblem::Empty => "FRANKCLAW_MASTER_KEY is set but empty",
            KeyProblem::NotBase64 => "FRANKCLAW_MASTER_KEY must be valid base64",
            KeyProblem::WrongLength => "FRANKCLAW_MASTER_KEY must decode to exactly 32 bytes",
        }
    }
}

/// The key, given what the two notations make of it: the standard one counts
/// first.
pub open spec fn key_of(standard: Option<Seq<u8>>, url_safe: Option<Seq<u8>>) -> Result<
    Seq<u8>,
    KeyProblem,
> {
    let decoded = if standard is Some {
        standard
    } else {
        url_safe
    };
    match decoded {
        None => Err(KeyProblem::NotBase64),
        Some(bytes) => if bytes.len() == 32 {
            Ok(bytes)
        } else {
            Err(KeyProblem::WrongLength)
        },
    }
}

/// The key, given what the two notations make of it.
pub fn checked_key(standard: Option<Vec<u8>>, url_safe: Option<Vec<u8>>) -> (r: Result<
    Vec<u8>,
    KeyProblem,
>)
    ensures
        match key_of(standard.deep_view(), url_safe.deep_view()) {
            Ok(bytes) => r is Ok && r->Ok_0@ == bytes,
            Err(problem) => r == Err::<Vec<u8>, KeyProblem>(problem),
        },
{
    let decoded = match standard {
        Some(bytes) => Some(bytes),
        None => url_safe,
    };
    match decoded {
        None => Err(KeyProblem::NotBase64),
        Some(bytes) => {
            assert(bytes.deep_view() =~= bytes@);
            if bytes.len() == 32 {
                Ok(bytes)
            } else {
                Err(KeyProblem::WrongLength)
            }
        },
    }
}

/// The master key of an environment.
pub open spec fn master_key(vars: Map<Seq<char>, String>) -> Result<Option<Seq<u8>>, KeyProblem> {
    if !vars.dom().contains("FRANKCLAW_MASTER_KEY"@) {
        Ok(None)
    } else {
        let raw = vars["FRANKCLAW_MASTER_KEY"@]@;
        if is_blank(raw) {
            Err(KeyProblem::Empty)
        } else {
            match key_of(standard_base64(trimmed(raw)), url_safe_base64(trimmed(raw))) {
                Ok(bytes) => Ok(Some(bytes)),
                Err(problem) => Err(problem),
            }
        }
    }
}

/// The master key: 32 bytes in base64, in `FRANKCLAW_MASTER_KEY`. There need
/// not be one.
pub fn load_master_key_from_env(vars: &Environment) -> (r: Result<Option<Vec<u8>>, KeyProblem>)
    requires
        vars.wf(),
    ensures
        match master_key(vars@) {
            Ok(None) => r is Ok && r->Ok_0 is None,
            Ok(Some(bytes)) => r is Ok && r->Ok_0 is Some && r->Ok_0->0@ == bytes,
            Err(problem) => r == Err::<Option<Vec<u8>>, KeyProblem>(problem),
        },
{
    let raw = match vars.get("FRANKCLAW_MASTER_KEY") {
        Some(raw) => raw,
        None => return Ok(None),
    };
    if blank(raw.as_str()) {
        return Err(KeyProblem::Empty);
    }
    let text = raw.as_str().trim();
    let standard = decode_standard(text);
    let url_safe = decode_url_safe(text);
    match checked_key(standard, url_safe) {
        Ok(bytes) => Ok(Some(bytes)),
        Err(problem) => Err(problem),
    }
}

/// A key that is accepted is 32 bytes long.
pub proof fn law_key_length(vars: Map<Seq<char>, String>)
    ensures
        master_key(vars) is Ok && master_key(vars)->Ok_0 is Some ==> master_key(
            vars,
        )->Ok_0->0.len() == 32,
{
}

/// An object with one member set; any other value as it is.
pub open spec fn with_member(j: JsonView, key: Seq<char>, value: JsonView) -> JsonView {
    match j {
        JsonView::Object(m) => JsonView::Object(m.insert(key, value)),
        _ => j,
    }
}

/// What stands in place of a secret.
pub open spec fn redaction() -> JsonView {
    JsonView::Text("[REDACTED]"@)
}

/// A value with its member `key`, if it has one, hidden.
pub open spec fn hidden(j: JsonView, key: Seq<char>) -> JsonView {
    if j.member(key) is Some {
        with_member(j, key, redaction())
    } else {
        j
    }
}

/// The gateway settings without secrets.
pub open spec fn redacted_gateway(j: JsonView) -> JsonView {
    match j.member("auth"@) {
        Some(auth) => with_member(j, "auth"@, hidden(hidden(auth, "token"@), "hash"@)),
        None => j,
    }
}

/// The model settings without secrets.
pub open spec fn redacted_models(j: JsonView) -> JsonView {
    match j.member("providers"@) {
        Some(JsonView::Array(items)) => with_member(
            j,
            "providers"@,
            JsonView::Array(items.map_values(|p: JsonView| hidden(p, "api_key_ref"@))),
        ),
        _ => j,
    }
}

/// A configuration without secrets.
pub open spec fn redacted(j: JsonView) -> JsonView {
    let first = match j.member("gateway"@) {
        Some(gateway) => with_member(j, "gateway"@, redacted_gateway(gateway)),
        None => j,
    };
    match first.member("models"@) {
        Some(models) => with_member(first, "models"@, redacted_models(models)),
        None => first,
    }
}

fn set_member(j: JsonValue, key: &str, value: JsonValue) -> (r: JsonValue)
    ensures
        r@ == with_member(j@, key@, value@),
{
    match j {
        JsonValue::Object(members) => {
            let mut object = JsonObject { members };
            object.put(key, value);
            object.finish()
        },
        other => other,
    }
}

fn hide_member(j: JsonValue, key: &str) -> (r: JsonValue)
    ensures
        r@ == hidden(j@, key@),
{
    match j.get(key) {
        Some(_) => set_member(j, key, JsonValue::text("[REDACTED]")),
        None => j,
    }
}

fn redact_gateway(j: &JsonValue) -> (r: JsonValue)
    ensures
        r@ == redacted_gateway(j@),
{
    match j.get("auth") {
        Some(auth) => set_member(
            j.clone(),
            "auth",
            hide_member(hide_member(auth.clone(), "token"), "hash"),
        ),
        None => j.clone(),
    }
}

fn redact_models(j: &JsonValue) -> (r: JsonValue)
    ensures
        r@ == redacted_models(j@),
{
    match j.get("providers") {
        Some(JsonValue::Array(items)) => {
            let mut out: Vec<JsonValue> = Vec::new();
            let mut i: usize = 0;
            while i < items.len()
                invariant
                    i <= items@.len(),
                    out@.len() == i,
                    forall|k: int|
                        0 <= k < i ==> (#[trigger] out@[k])@ == hidden(
                            items@[k]@,
                            "api_key_ref"@,
                        ),
                decreases items@.len() - i,
            {
                out.push(hide_member(items[i].clone(), "api_key_ref"));
                i = i + 1;
            }
            proof {
                lemma_items(items@);
                lemma_items(out@);
                assert(crate::json::items_view(out@) =~= crate::json::items_view(
                    items@,
                ).map_values(|p: JsonView| hidden(p, "api_key_ref"@)));
            }
            set_member(j.clone(), "providers", JsonValue::Array(out))
        },
        _ => j.clone(),
    }
}

/// The configuration without the gateway's token and password hash and without
/// the references to the providers' keys.
pub fn redact_config(config: &JsonValue) -> (r: JsonValue)
    ensures
        r@ == redacted(config@),
{
    let first = match config.get("gateway") {
        Some(gateway) => set_member(config.clone(), "gateway", redact_gateway(gateway)),
        None => config.clone(),
    };
    match first.get("models") {
        Some(models) => {
            let models = redact_models(models);
            set_member(first, "models", models)
        },
        None => first,
    }
}

/// In a redacted configuration the gateway's token and hash and the providers'
/// key references read `[REDACTED]`, where there are any.
pub proof fn law_redacted_shows_no_secret(j: JsonView)
    ensures
        ({
            let auth = redacted(j).member("gateway"@)->0.member("auth"@)->0;
            redacted(j).member("gateway"@) is Some && redacted(j).member("gateway"@)->0.member(
                "auth"@,
            ) is Some ==> {
                &&& auth.member("token"@) is Some ==> auth.member("token"@)->0 == redaction()
                &&& auth.member("hash"@) is Some ==> auth.member("hash"@)->0 == redaction()
            }
        }),
        ({
            let providers = redacted(j).member("models"@)->0.items_member("providers"@);
            redacted(j).member("models"@) is Some && providers is Some ==> forall|i: int|
                0 <= i < providers->0.len() && (#[trigger] providers->0[i]).member(
                    "api_key_ref"@,
                ) is Some ==> providers->0[i].member("api_key_ref"@)->0 == redaction()
        }),
{
    reveal_strlit("gateway");
    reveal_strlit("models");
    reveal_strlit("token");
    reveal_strlit("hash");
    assert("gateway"@.len() != "models"@.len());
    assert("token"@.len() != "hash"@.len());
}

/// Redaction leaves every other member of the configuration as it was.
pub proof fn law_redaction_keeps_rest(j: JsonView, key: Seq<char>)
    requires
        key != "gateway"@,
        key != "models"@,
    ensures
        redacted(j).member(key) == j.member(key),
{
}

} // verus!
