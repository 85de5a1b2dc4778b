//! Secrets: the master key is the one that was set, and a configuration that is
//! shown shows none.

use crate::channels::Environment;
use crate::cli::secrets::{
    checked_key, load_master_key_from_env, redact_config, standard_base64, url_safe_base64,
    KeyProblem,
};
use crate::json::{JsonValue, JsonView};
use crate::laws::terms::{inner, listed, said};
use crate::text::{is_blank, trimmed};
use vstd::prelude::*;

verus! {

/// The value under a path of two keys.
pub open spec fn deep(j: JsonView, a: Seq<char>, b: Seq<char>) -> Option<JsonView> {
    if inner(j, a) is Some {
        inner(inner(j, a)->0, b)
    } else {
        None
    }
}

/// A configuration that is shown reads `[REDACTED]` in place of the gateway's
/// token and password hash, where it has them.
pub proof fn law_gateway_secrets_are_hidden(config: &JsonValue, r: JsonValue)
    requires
        call_ensures(redact_config, (config,), r),
    ensures
        ({
            let before = deep(config@, "gateway"@, "auth"@);
            let after = deep(r@, "gateway"@, "auth"@);
            &&& before is Some <==> after is Some
            &&& before is Some && inner(before->0, "token"@) is Some ==> said(after->0, "token"@)
                == Some("[REDACTED]"@)
            &&& before is Some && inner(before->0, "hash"@) is Some ==> said(after->0, "hash"@)
                == Some("[REDACTED]"@)
            &&& after is Some && inner(after->0, "token"@) is Some ==> said(after->0, "token"@)
                == Some("[REDACTED]"@)
            &&& after is Some && inner(after->0, "hash"@) is Some ==> said(after->0, "hash"@)
                == Some("[REDACTED]"@)
        }),
{
    lemma_words();
}

proof fn lemma_words()
    ensures
        "gateway"@.len() == 7,
        "models"@.len() == 6,
        "token"@.len() == 5,
        "hash"@.len() == 4,
{
    reveal_strlit("gateway");
    reveal_strlit("models");
    reveal_strlit("token");
    reveal_strlit("hash");
}

/// No provider's key reference is shown, and no provider is lost.
pub proof fn law_provider_secrets_are_hidden(config: &JsonValue, r: JsonValue, i: int)
    requires
        call_ensures(redact_config, (config,), r),
        inner(config@, "models"@) is Some,
        listed(inner(config@, "models"@)->0, "providers"@) is Some,
        0 <= i < listed(inner(config@, "models"@)->0, "providers"@)->0.len(),
    ensures
        inner(r@, "models"@) is Some,
        listed(inner(r@, "models"@)->0, "providers"@) is Some,
        ({
            let before = listed(inner(config@, "models"@)->0, "providers"@)->0;
            let after = listed(inner(r@, "models"@)->0, "providers"@)->0;
            &&& after.len() == before.len()
            &&& inner(before[i], "api_key_ref"@) is Some ==> said(after[i], "api_key_ref"@) == Some(
                "[REDACTED]"@,
            )
            &&& inner(before[i], "api_key_ref"@) is None ==> after[i] == before[i]
        }),
{
    lemma_words();
}

/// What is no secret is shown as it is.
pub proof fn law_the_rest_is_shown(
    config: &JsonValue,
    r: JsonValue,
    key: Seq<char>,
    setting: Seq<char>,
    own: Seq<char>,
    i: int,
)
    requires
        call_ensures(redact_config, (config,), r),
    ensures
        key != "gateway"@ && key != "models"@ ==> inner(r@, key) == inner(config@, key),
        setting != "auth"@ ==> deep(r@, "gateway"@, setting) == deep(config@, "gateway"@, setting),
        setting != "providers"@ ==> deep(r@, "models"@, setting) == deep(
            config@,
            "models"@,
            setting,
        ),
        own != "token"@ && own != "hash"@ && deep(config@, "gateway"@, "auth"@) is Some ==> inner(
            deep(r@, "gateway"@, "auth"@)->0,
            own,
        ) == inner(deep(config@, "gateway"@, "auth"@)->0, own),
        own != "api_key_ref"@ && inner(config@, "models"@) is Some && listed(
            inner(config@, "models"@)->0,
            "providers"@,
        ) is Some && 0 <= i < listed(inner(config@, "models"@)->0, "providers"@)->0.len() ==> inner(
            listed(inner(r@, "models"@)->0, "providers"@)->0[i],
            own,
        ) == inner(listed(inner(config@, "models"@)->0, "providers"@)->0[i], own),
{
    lemma_words();
}

/// A key is taken from the first notation that can be read, and only if it is 32
/// bytes long; it is those bytes.
pub proof fn law_key_is_checked(
    standard: Option<Vec<u8>>,
    url_safe: Option<Vec<u8>>,
    r: Result<Vec<u8>, KeyProblem>,
)
    requires
        call_ensures(checked_key, (standard, url_safe), r),
    ensures
        r is Ok ==> r->Ok_0@.len() == 32,
        standard is Some && standard->0@.len() == 32 ==> r is Ok && r->Ok_0@ == standard->0@,
        standard is Some && standard->0@.len() != 32 ==> r is Err && r->Err_0 is WrongLength,
        standard is None && url_safe is Some && url_safe->0@.len() == 32 ==> r is Ok && r->Ok_0@
            == url_safe->0@,
        standard is None && url_safe is Some && url_safe->0@.len() != 32 ==> r is Err && r->Err_0
            is WrongLength,
        standard is None && url_safe is None ==> r is Err && r->Err_0 is NotBase64,
{
    if standard is Some {
        assert(standard->0.deep_view() =~= standard->0@);
    }
    if url_safe is Some {
        assert(url_safe->0.deep_view() =~= url_safe->0@);
    }
}

/// There is no key where none is set; one that is set but blank is an error; any
/// other is what base64 makes of the trimmed text.
pub proof fn law_key_of_the_environment(vars: &Environment, r: Result<Option<Vec<u8>>, KeyProblem>)
    requires
        call_ensures(load_master_key_from_env, (vars,), r),
    ensures
        ({
            let name = "FRANKCLAW_MASTER_KEY"@;
            let set = vars@.dom().contains(name);
            let text = trimmed(vars@[name]@);
            &&& !set <==> r is Ok && r->Ok_0 is None
            &&& set && is_blank(vars@[name]@) ==> r is Err && r->Err_0 is Empty
            &&& r is Ok && r->Ok_0 is Some ==> r->Ok_0->0@.len() == 32
            &&& r is Ok && r->Ok_0 is Some ==> Some(r->Ok_0->0@) == standard_base64(text) || Some(
                r->Ok_0->0@,
            ) == url_safe_base64(text)
            &&& set && !is_blank(vars@[name]@) && standard_base64(text) is Some && standard_base64(
                text,
            )->0.len() == 32 ==> r is Ok && r->Ok_0->0@ == standard_base64(text)->0
        }),
{
}

} // verus!
