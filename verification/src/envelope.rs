//! The response side of the pipeline: classifying the HTTP status, parsing
//! the body, and unwrapping the vendor's `data`/`meta_data` envelope.
use crate::error::CufinderError;
use crate::json::{
    entries_view, kv_set, lemma_kv_set_get, set_entry, JsonSpec, JsonValue,
};
use vstd::prelude::*;
use vstd::string::StringExecFns;

verus! {

/// The parsed form a body takes inside `parse_json` before the library
/// rebuilds it as its own model; opaque here.
#[verifier::external_type_specification]
#[verifier::external_body]
pub struct ExSerdeValue(serde_json::Value);

/// What parsing a body as JSON yields: `None` where the text is not JSON
/// that the model holds, the parsed value otherwise.
pub uninterp spec fn json_of(text: Seq<char>) -> Option<JsonSpec>;

/// Relies on serde_json::from_str: whether a text parses as JSON, and the
/// value it parses to, depend on the text alone.
#[verifier::external_body]
pub fn parse_json(text: &str) -> (r: Result<JsonValue, String>)
    ensures
        match r {
            Ok(v) => json_of(text@) == Some(v@),
            Err(_) => json_of(text@) is None,
        },
{
    match serde_json::from_str::<serde_json::Value>(text) {
        Ok(v) => Ok(of_value(v)),
        Err(e) => Err(e.to_string()),
    }
}

/// The conversion arm of `parse_json`: relies on serde_json::Value's
/// variants, rebuilt one arm each as the library's model. Numbers outside
/// i64 fall to `Null`; the vendor's schema uses none.
#[verifier::external_body]
fn of_value(v: serde_json::Value) -> JsonValue {
    match v {
        serde_json::Value::Null => JsonValue::Null,
        serde_json::Value::Bool(b) => JsonValue::Bool(b),
        serde_json::Value::Number(n) => match n.as_i64() {
            Some(i) => JsonValue::Int(i),
            None => JsonValue::Null,
        },
        serde_json::Value::String(s) => JsonValue::Str(s),
        serde_json::Value::Array(a) => JsonValue::Arr(a.into_iter().map(of_value).collect()),
        serde_json::Value::Object(m) => JsonValue::Obj(
            m.into_iter().map(|(k, x)| (k, of_value(x))).collect(),
        ),
    }
}

/// A 2xx status, the range the pipeline takes as success.
pub open spec fn is_success_status(status: u16) -> bool {
    200 <= status < 300
}

/// The error a non-2xx status classifies to, with the body text as its
/// message.
pub open spec fn is_status_error(e: CufinderError, status: u16, body: Seq<char>) -> bool {
    if status == 401 {
        e matches CufinderError::AuthenticationError(m) && m@ == body
    } else if status == 429 {
        e matches CufinderError::RateLimitError(m) && m@ == body
    } else if status == 402 {
        e matches CufinderError::CreditLimitError(m) && m@ == body
    } else {
        e matches CufinderError::ApiError { status: s, message: m } && s == status && m@ == body
    }
}

/// Maps a non-2xx status to its error category; `None` on success.
pub fn classify_status(status: u16, body: String) -> (r: Option<CufinderError>)
    ensures
        is_success_status(status) <==> r is None,
        r matches Some(e) ==> is_status_error(e, status, body@),
{
    if 200 <= status && status < 300 {
        None
    } else if status == 401 {
        Some(CufinderError::AuthenticationError(body))
    } else if status == 429 {
        Some(CufinderError::RateLimitError(body))
    } else if status == 402 {
        Some(CufinderError::CreditLimitError(body))
    } else {
        Some(CufinderError::ApiError { status, message: body })
    }
}

/// The envelope rule: a `data` member replaces the whole value; a sibling
/// `meta_data` is then set inside it where it is an object, the sibling
/// winning over any `meta_data` member the data object already carried;
/// without a `data` member the value stands unchanged.
pub open spec fn unwrap_envelope_spec(j: JsonSpec) -> JsonSpec {
    match j.get("data"@) {
        Option::None => j,
        Option::Some(d) => match j.get("meta_data"@) {
            Option::None => d,
            Option::Some(m) => if d is Obj {
                JsonSpec::Obj(kv_set(d->Obj_0, "meta_data"@, m))
            } else {
                d
            },
        },
    }
}

/// Unwraps the vendor's response envelope.
pub fn unwrap_envelope(v: &JsonValue) -> (r: JsonValue)
    ensures
        r@ == unwrap_envelope_spec(v@),
{
    let data_key = String::from_str("data");
    let meta_key = String::from_str("meta_data");
    match v.get(&data_key) {
        None => v.duplicate(),
        Some(d) => match v.get(&meta_key) {
            None => d.duplicate(),
            Some(m) => {
                let dd = d.duplicate();
                match dd {
                    JsonValue::Obj(mut entries) => {
                        proof {
                            assert(d@->Obj_0 =~= entries_view(entries@));
                        }
                        let mv = m.duplicate();
                        set_entry(&mut entries, meta_key, mv);
                        let r = JsonValue::Obj(entries);
                        proof {
                            assert(r@->Obj_0 =~= entries_view(entries@));
                        }
                        r
                    },
                    other => other,
                }
            },
        },
    }
}

/// Without a `data` member, unwrapping leaves the value unchanged.
pub proof fn lemma_unwrap_without_data(j: JsonSpec)
    requires
        j.get("data"@) is None,
    ensures
        unwrap_envelope_spec(j) == j,
{
}

/// With a `data` member and no sibling `meta_data`, unwrapping yields the
/// data value itself.
pub proof fn lemma_unwrap_data_only(j: JsonSpec, d: JsonSpec)
    requires
        j.get("data"@) == Some(d),
        j.get("meta_data"@) is None,
    ensures
        unwrap_envelope_spec(j) == d,
{
}

/// With a `data` object and a sibling `meta_data`, the result is the data
/// object with `meta_data` set to the sibling — the sibling wins over any
/// `meta_data` the data object already carried — and every other member
/// of the data object as it was.
pub proof fn lemma_unwrap_with_meta(j: JsonSpec, d: JsonSpec, m: JsonSpec, probe: Seq<char>)
    requires
        j.get("data"@) == Some(d),
        j.get("meta_data"@) == Some(m),
        d is Obj,
    ensures
        unwrap_envelope_spec(j) is Obj,
        unwrap_envelope_spec(j).get("meta_data"@) == Some(m),
        probe != "meta_data"@ ==> unwrap_envelope_spec(j).get(probe) == d.get(probe),
{
    lemma_kv_set_get(d->Obj_0, "meta_data"@, m, "meta_data"@);
    lemma_kv_set_get(d->Obj_0, "meta_data"@, m, probe);
}

/// The whole response side in one step: a non-2xx status classifies to
/// its error; a 2xx body that does not parse is a decode failure; a 2xx
/// body that parses is unwrapped.
pub fn process_response(status: u16, body: &str) -> (r: Result<JsonValue, CufinderError>)
    ensures
        !is_success_status(status) ==> (r matches Err(e) && is_status_error(e, status, body@)),
        is_success_status(status) ==> match json_of(body@) {
            Option::Some(j) => (r matches Ok(v) && v@ == unwrap_envelope_spec(j)),
            Option::None => (r matches Err(e) && e is JsonError),
        },
{
    match classify_status(status, String::from_str(body)) {
        Some(e) => Err(e),
        None => match parse_json(body) {
            Ok(v) => Ok(unwrap_envelope(&v)),
            Err(msg) => Err(CufinderError::JsonError(msg)),
        },
    }
}

} // verus!
