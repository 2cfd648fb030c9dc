//! The computing side of the Agent Plan client: endpoint URLs, the status
//! check on replies, and the headers of a speech request. The requests
//! themselves are sent by the application.

use vstd::prelude::*;
use vstd::utf8::encode_utf8;

use crate::config::AgentPlanConfig;
use crate::error::{AgentPlanError, ErrorView};
use crate::text::push_char;

verus! {

broadcast use vstd::string::group_string_axioms;

/// `s` without the `/` characters at its end (`trim_end_matches('/')`).
pub open spec fn strip_trailing_slashes(s: Seq<char>) -> Seq<char>
    decreases s.len(),
{
    if s.len() > 0 && s.last() == '/' {
        strip_trailing_slashes(s.drop_last())
    } else {
        s
    }
}

/// Stripping trailing slashes from `kept` followed by slashes only gives
/// `kept` back, when `kept` does not itself end in a slash.
proof fn lemma_strip_slash_run(kept: Seq<char>, run: Seq<char>)
    requires
        kept.len() == 0 || kept.last() != '/',
        forall|i: int| 0 <= i < run.len() ==> run[i] == '/',
    ensures
        strip_trailing_slashes(kept + run) == kept,
    decreases run.len(),
{
    if run.len() == 0 {
        assert(kept + run == kept);
    } else {
        assert((kept + run).drop_last() == kept + run.drop_last());
        lemma_strip_slash_run(kept, run.drop_last());
    }
}

/// `base` with its trailing slashes removed, then `path` appended.
fn join_endpoint(base: &str, path: &str) -> (r: String)
    ensures
        r@ == strip_trailing_slashes(base@) + path@,
{
    let mut kept = String::new();
    let mut run = String::new();
    for ch in it: base.chars()
        invariant
            it.seq() == base@,
            kept@ + run@ == base@.take(it.index() as int),
            kept@.len() == 0 || kept@.last() != '/',
            forall|i: int| 0 <= i < run@.len() ==> run@[i] == '/',
    {
        proof {
            assert(base@.take(it.index() + 1) == base@.take(it.index() as int).push(ch));
        }
        if ch == '/' {
            push_char(&mut run, '/');
        } else {
            kept.append(run.as_str());
            run = String::new();
            push_char(&mut kept, ch);
        }
    }
    proof {
        assert(base@.take(base@.len() as int) == base@);
        lemma_strip_slash_run(kept@, run@);
    }
    kept.append(path);
    kept
}

/// The messages endpoint under the base `base`.
pub open spec fn messages_endpoint(base: Seq<char>) -> Seq<char> {
    strip_trailing_slashes(base) + "/v1/messages"@
}

/// The image generation endpoint under the base `base`.
pub open spec fn images_endpoint(base: Seq<char>) -> Seq<char> {
    strip_trailing_slashes(base) + "/v3/images/generations"@
}

/// The URL that message requests go to.
pub fn messages_url(plan_base_url: &str) -> (r: String)
    ensures
        r@ == messages_endpoint(plan_base_url@),
{
    join_endpoint(plan_base_url, "/v1/messages")
}

/// The URL that image generation requests go to.
pub fn images_url(plan_base_url: &str) -> (r: String)
    ensures
        r@ == images_endpoint(plan_base_url@),
{
    join_endpoint(plan_base_url, "/v3/images/generations")
}

/// Trailing slashes on the configured base do not change the endpoints.
pub proof fn lemma_endpoints_ignore_trailing_slash(base: Seq<char>)
    ensures
        messages_endpoint(base.push('/')) == messages_endpoint(base),
        images_endpoint(base.push('/')) == images_endpoint(base),
{
    assert(base.push('/').drop_last() == base);
}

/// Whether an HTTP status code is a success (2xx).
pub open spec fn is_success_status(status: u16) -> bool {
    200 <= status && status <= 299
}

/// Passes the body of a successful reply on; any other status becomes an
/// `ApiStatus` error with the status and the body.
pub fn ensure_success_status(status: u16, body: String) -> (r: Result<String, AgentPlanError>)
    ensures
        is_success_status(status) ==> r == Ok::<String, AgentPlanError>(body),
        !is_success_status(status) ==> (r matches Err(e) && e@ == ErrorView::ApiStatus {
            status,
            body: body@,
        }),
{
    if 200 <= status && status <= 299 {
        Ok(body)
    } else {
        Err(AgentPlanError::ApiStatus { status, body })
    }
}

/// Whether `http` accepts a byte in a header value: visible ASCII, tab, or
/// any byte from 128 up.
pub open spec fn header_value_byte(b: u8) -> bool {
    (b >= 32 && b != 127) || b == 9
}

/// Whether `s` can be sent as a header value.
pub open spec fn valid_header_value(s: Seq<char>) -> bool {
    forall|i: int| 0 <= i < encode_utf8(s).len() ==> header_value_byte(#[trigger] encode_utf8(s)[i])
}

/// `HeaderValue::from_str(s).is_ok()`: the `http` crate accepts a value
/// exactly when every byte is a tab, at least 32 and not 127.
#[verifier::external_body]
fn header_value_accepted(s: &str) -> (r: bool)
    ensures
        r == valid_header_value(s@),
{
    reqwest::header::HeaderValue::from_str(s).is_ok()
}

/// Whether `c` is a lower-case hexadecimal digit.
pub open spec fn is_lower_hex(c: char) -> bool {
    ('0' <= c && c <= '9') || ('a' <= c && c <= 'f')
}

/// Whether `s` is a random (version 4) UUID in hyphenated lower-case form.
pub open spec fn is_v4_uuid_text(s: Seq<char>) -> bool {
    &&& s.len() == 36
    &&& forall|i: int|
        0 <= i < 36 ==> if i == 8 || i == 13 || i == 18 || i == 23 {
            s[i] == '-'
        } else {
            is_lower_hex(#[trigger] s[i])
        }
    &&& s[14] == '4'
    &&& (s[19] == '8' || s[19] == '9' || s[19] == 'a' || s[19] == 'b')
}

/// `Uuid::new_v4().to_string()`: a fresh random UUID in hyphenated
/// lower-case form. Which UUID comes back is chance, so only its form is
/// stated. (`new_v4` panics when the system random source fails.)
#[verifier::external_body]
fn new_request_id() -> (r: String)
    ensures
        is_v4_uuid_text(r@),
{
    uuid::Uuid::new_v4().to_string()
}

/// The headers of a speech request carrying the request id `request_id`,
/// in order: JSON content type, the API key, the configured speech
/// resource, the request id, and the request for usage accounting.
/// `MissingApiKey` when the key cannot be a header value, else
/// `InvalidTtsResourceId` when the resource cannot be one.
pub fn tts_headers_with_id(config: &AgentPlanConfig, request_id: String) -> (r: Result<
    Vec<(String, String)>,
    AgentPlanError,
>)
    ensures
        !valid_header_value(config.api_key@) ==> (r matches Err(AgentPlanError::MissingApiKey)),
        valid_header_value(config.api_key@) && !valid_header_value(config.tts_resource_id@) ==> (r matches Err(
            AgentPlanError::InvalidTtsResourceId,
        )),
        valid_header_value(config.api_key@) && valid_header_value(config.tts_resource_id@) ==> (r matches Ok(h)
            && tts_header_list(h@, config.api_key@, config.tts_resource_id@, request_id@)),
{
    if !header_value_accepted(config.api_key.as_str()) {
        return Err(AgentPlanError::MissingApiKey);
    }
    if !header_value_accepted(config.tts_resource_id.as_str()) {
        return Err(AgentPlanError::InvalidTtsResourceId);
    }
    let mut headers: Vec<(String, String)> = Vec::new();
    headers.push(("content-type".to_string(), "application/json".to_string()));
    headers.push(("X-Api-Key".to_string(), config.api_key.clone()));
    headers.push(("X-Api-Resource-Id".to_string(), config.tts_resource_id.clone()));
    headers.push(("X-Api-Request-Id".to_string(), request_id));
    headers.push(("X-Control-Require-Usage-Tokens-Return".to_string(), "*".to_string()));
    Ok(headers)
}

/// The headers of a speech request with a fresh random request id, as
/// `tts_headers_with_id` gives them.
pub fn tts_headers(config: &AgentPlanConfig) -> (r: Result<Vec<(String, String)>, AgentPlanError>)
    ensures
        !valid_header_value(config.api_key@) ==> (r matches Err(AgentPlanError::MissingApiKey)),
        valid_header_value(config.api_key@) && !valid_header_value(config.tts_resource_id@) ==> (r matches Err(
            AgentPlanError::InvalidTtsResourceId,
        )),
        valid_header_value(config.api_key@) && valid_header_value(config.tts_resource_id@) ==> (r matches Ok(h)
            && is_v4_uuid_text(h@[3].1@) && tts_header_list(
            h@,
            config.api_key@,
            config.tts_resource_id@,
            h@[3].1@,
        )),
{
    tts_headers_with_id(config, new_request_id())
}

/// `h` is the header list of a speech request made with `api_key`,
/// `resource_id` and `request_id`.
pub open spec fn tts_header_list(
    h: Seq<(String, String)>,
    api_key: Seq<char>,
    resource_id: Seq<char>,
    request_id: Seq<char>,
) -> bool {
    &&& h.len() == 5
    &&& h[0].0@ == "content-type"@ && h[0].1@ == "application/json"@
    &&& h[1].0@ == "X-Api-Key"@ && h[1].1@ == api_key
    &&& h[2].0@ == "X-Api-Resource-Id"@ && h[2].1@ == resource_id
    &&& h[3].0@ == "X-Api-Request-Id"@ && h[3].1@ == request_id
    &&& h[4].0@ == "X-Control-Require-Usage-Tokens-Return"@ && h[4].1@ == "*"@
}

/// Whether a header byte is visible ASCII or a tab, the bytes that
/// `HeaderValue::to_str` accepts.
pub open spec fn visible_ascii_byte(b: u8) -> bool {
    (b >= 32 && b < 127) || b == 9
}

/// The value of the first header named `name`, as `HeaderMap::get` finds
/// it among the reply's headers in their order.
pub open spec fn first_header_value(h: Seq<(String, Vec<u8>)>, name: Seq<char>) -> Option<Seq<u8>>
    decreases h.len(),
{
    if h.len() == 0 {
        None
    } else if h[0].0@ == name {
        Some(h[0].1@)
    } else {
        first_header_value(h.drop_first(), name)
    }
}

/// The text of a header value: its bytes as characters when all are
/// visible ASCII or tabs (`HeaderValue::to_str`), else none.
pub open spec fn header_value_text(v: Seq<u8>) -> Option<Seq<char>> {
    if forall|i: int| 0 <= i < v.len() ==> visible_ascii_byte(#[trigger] v[i]) {
        Some(Seq::new(v.len(), |i: int| v[i] as char))
    } else {
        None
    }
}

/// The text of the first reply header named `name` (given lower-case, as
/// header names are stored); none when there is no such header or its value
/// is not visible ASCII.
pub fn header_to_string(headers: &Vec<(String, Vec<u8>)>, name: &str) -> (r: Option<String>)
    ensures
        (match r {
            Some(t) => Some(t@),
            None => None::<Seq<char>>,
        }) == match first_header_value(headers@, name@) {
            Some(v) => header_value_text(v),
            None => None,
        },
{
    let mut i: usize = 0;
    proof {
        assert(headers@.skip(0) == headers@);
    }
    while i < headers.len()
        invariant
            0 <= i <= headers@.len(),
            first_header_value(headers@, name@) == first_header_value(headers@.skip(i as int), name@),
        decreases headers@.len() - i,
    {
        proof {
            assert(headers@.skip(i as int)[0] == headers@[i as int]);
            assert(headers@.skip(i as int).drop_first() == headers@.skip(i + 1));
        }
        if crate::text::same_text(headers[i].0.as_str(), name) {
            let value = &headers[i].1;
            assert(first_header_value(headers@, name@) == Some(value@));
            let mut out = String::new();
            let mut k: usize = 0;
            while k < value.len()
                invariant
                    0 <= k <= value@.len(),
                    first_header_value(headers@, name@) == Some(value@),
                    forall|j: int| 0 <= j < k ==> visible_ascii_byte(#[trigger] value@[j]),
                    out@ == Seq::new(k as nat, |j: int| value@[j] as char),
                decreases value@.len() - k,
            {
                let b = value[k];
                if !((b >= 32 && b < 127) || b == 9) {
                    return None;
                }
                push_char(&mut out, b as char);
                proof {
                    assert(out@ =~= Seq::new((k + 1) as nat, |j: int| value@[j] as char));
                }
                k = k + 1;
            }
            return Some(out);
        }
        i = i + 1;
    }
    None
}

} // verus!
