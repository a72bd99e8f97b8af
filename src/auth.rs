//! The decisions of the client-credentials exchange: where the token is asked for, how the
//! answer reads, and which message a refusal carries.
use vstd::prelude::*;
use crate::json::{JsonValue, JsonView, field_of, json_document, read_document};
use crate::text::{has_prefix, has_suffix, join, strip_prefix, starts_with, ends_with};
use vstd::string::StrSliceExecFns;

verus! {

/// `s` without a leading `https://` or, failing that, `http://`.
pub open spec fn bare_endpoint(s: Seq<char>) -> Seq<char> {
    if has_prefix(s, "https://"@) {
        s.subrange("https://"@.len() as int, s.len() as int)
    } else if has_prefix(s, "http://"@) {
        s.subrange("http://"@.len() as int, s.len() as int)
    } else {
        s
    }
}

/// The token URL of an API endpoint `api.<env>.firebolt.io`: the same host under `id.`
/// instead of `api.`, path `/oauth/token`, over `https`.
pub open spec fn token_url_of(api_endpoint: Seq<char>) -> Option<Seq<char>> {
    let e = bare_endpoint(api_endpoint);
    if has_prefix(e, "api."@) && has_suffix(e, ".firebolt.io"@) {
        Some("https://id."@ + e.subrange("api."@.len() as int, e.len() as int) + "/oauth/token"@)
    } else {
        None
    }
}

/// Checks that `api_endpoint` names `api.<env>.firebolt.io`, with or without a scheme, and
/// gives the URL where its tokens are issued.
pub fn validate_and_transform_endpoint(api_endpoint: &str) -> (r: Result<String, String>)
    ensures
        match r {
            Ok(u) => token_url_of(api_endpoint@) == Some(u@),
            Err(_) => token_url_of(api_endpoint@) is None,
        },
{
    let endpoint = match strip_prefix(api_endpoint, "https://") {
        Some(rest) => rest,
        None => match strip_prefix(api_endpoint, "http://") {
            Some(rest) => rest,
            None => api_endpoint,
        },
    };
    if !starts_with(endpoint, "api.") || !ends_with(endpoint, ".firebolt.io") {
        let head = join(
            "Invalid API endpoint format. Expected 'api.<env>.firebolt.io', got '",
            endpoint,
        );
        return Err(join(head.as_str(), "'"));
    }
    let host_rest = endpoint.substring_char("api.".unicode_len(), endpoint.unicode_len());
    let with_host = join("https://id.", host_rest);
    Ok(join(with_host.as_str(), "/oauth/token"))
}

/// The message of a refused token request: the `message`, `error` or `error_description`
/// string of the JSON body, the first that is there; else the body itself after
/// `Authentication failed: `.
pub open spec fn refusal_message(body: Seq<char>) -> Seq<char> {
    let fallback = "Authentication failed: "@ + body;
    match json_document(body) {
        Some(doc) => match field_of(doc, "message"@) {
            Some(JsonView::Str(m)) => m,
            _ => match field_of(doc, "error"@) {
                Some(JsonView::Str(m)) => m,
                _ => match field_of(doc, "error_description"@) {
                    Some(JsonView::Str(m)) => m,
                    _ => fallback,
                },
            },
        },
        None => fallback,
    }
}

fn string_field(doc: &JsonValue, key: &str) -> (r: Option<String>)
    ensures
        match r {
            Some(s) => field_of(doc@, key@) == Some(JsonView::Str(s@)),
            None => !(field_of(doc@, key@) matches Some(JsonView::Str(_))),
        },
{
    match doc.get(key) {
        Some(v) => match v.as_str() {
            Some(s) => Some(String::from_str(s)),
            None => None,
        },
        None => None,
    }
}

/// The message that a refused token request's body carries: see `refusal_message`.
pub fn extract_error_message_from_json(response_text: &str) -> (r: String)
    ensures
        r@ == refusal_message(response_text@),
{
    match read_document(response_text) {
        Some(doc) => {
            if let Some(m) = string_field(&doc, "message") {
                return m;
            }
            if let Some(m) = string_field(&doc, "error") {
                return m;
            }
            if let Some(m) = string_field(&doc, "error_description") {
                return m;
            }
            join("Authentication failed: ", response_text)
        },
        None => join("Authentication failed: ", response_text),
    }
}

/// The token and its lifetime in seconds that a granted token request's body holds: the
/// `access_token` string and the non-negative integer `expires_in` of a JSON object.
pub open spec fn grant_of(body: Seq<char>) -> Option<(Seq<char>, u64)> {
    match json_document(body) {
        Some(doc) => match field_of(doc, "access_token"@) {
            Some(JsonView::Str(t)) => match field_of(doc, "expires_in"@) {
                Some(JsonView::Number(Some(n), _)) => if n >= 0 {
                    Some((t, n as u64))
                } else {
                    None
                },
                _ => None,
            },
            _ => None,
        },
        None => None,
    }
}

/// Reads a granted token request's body: see `grant_of`.
pub fn parse_token_response(body: &str) -> (r: Result<(String, u64), String>)
    ensures
        match r {
            Ok((t, n)) => grant_of(body@) == Some((t@, n)),
            Err(_) => grant_of(body@) is None,
        },
{
    let doc = match read_document(body) {
        Some(d) => d,
        None => {
            return Err(String::from_str("Failed to parse response"));
        },
    };
    let token = match string_field(&doc, "access_token") {
        Some(t) => t,
        None => {
            return Err(String::from_str("Failed to parse response: missing access_token"));
        },
    };
    match doc.get("expires_in") {
        Some(JsonValue::Number(n)) => match n.int {
            Some(i) => if i >= 0 {
                Ok((token, i as u64))
            } else {
                Err(String::from_str("Failed to parse response: invalid expires_in"))
            },
            None => Err(String::from_str("Failed to parse response: invalid expires_in")),
        },
        _ => Err(String::from_str("Failed to parse response: missing expires_in")),
    }
}

/// The moment a token given at `now` for `expires_in` seconds expires, where it fits a `u64`.
pub fn expiration_timestamp(now: u64, expires_in: u64) -> (r: Option<u64>)
    ensures
        r == (if now + expires_in <= u64::MAX {
            Some((now + expires_in) as u64)
        } else {
            None::<u64>
        }),
{
    now.checked_add(expires_in)
}

} // verus!
