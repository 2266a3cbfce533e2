use vstd::prelude::*;

pub mod foreign;
pub mod form_encoding;

use crate::apis::foreign::{byte_serialize, debug_text, status_display, status_text};
use vstd::string::{to_string_from_display_ensures, StringExecFns};
use vstd::string::StringSliceAdditionalSpecFns;
use crate::apis::form_encoding::{
    form_urldecoded, form_urlencoded, is_query_safe_char, is_unreserved_byte, is_unreserved_char,
    lemma_form_urlencoded_query_safe, lemma_form_urlencoded_roundtrip,
    lemma_form_urlencoded_unreserved,
};

verus! {

/// Encodes a value for use in a URL query string, in the
/// `application/x-www-form-urlencoded` byte serialization of its UTF-8 bytes.
pub fn urlencode(s: &str) -> (res: String)
    ensures
        res@ == form_urlencoded(s.spec_bytes()),
        forall|i: int| 0 <= i < res@.len() ==> is_query_safe_char(#[trigger] res@[i]),
{
    proof {
        lemma_form_urlencoded_query_safe(s.spec_bytes());
    }
    byte_serialize(s.as_bytes())
}

/// Decoding what `urlencode` gives back yields the UTF-8 bytes of its input.
pub proof fn lemma_urlencode_decodes_back(s: &str)
    ensures
        form_urldecoded(form_urlencoded(s.spec_bytes())) == s.spec_bytes(),
{
    lemma_form_urlencoded_roundtrip(s.spec_bytes());
}

/// Two strings that encode to the same text are the same string.
pub proof fn lemma_urlencode_injective(s1: &str, s2: &str)
    requires
        form_urlencoded(s1.spec_bytes()) == form_urlencoded(s2.spec_bytes()),
    ensures
        s1@ == s2@,
{
    lemma_form_urlencoded_roundtrip(s1.spec_bytes());
    lemma_form_urlencoded_roundtrip(s2.spec_bytes());
    vstd::utf8::encode_utf8_decode_utf8(s1@);
    vstd::utf8::encode_utf8_decode_utf8(s2@);
}

/// A string of ASCII letters, digits, `*`, `-`, `.` and `_` encodes to itself.
pub proof fn lemma_urlencode_unreserved(s: &str)
    requires
        forall|i: int| 0 <= i < s@.len() ==> is_unreserved_char(#[trigger] s@[i]),
    ensures
        form_urlencoded(s.spec_bytes()) == s@,
{
    assert(vstd::utf8::is_ascii_chars(s@));
    vstd::utf8::is_ascii_chars_encode_utf8(s@);
    let b = s.spec_bytes();
    assert forall|i: int| 0 <= i < b.len() implies is_unreserved_byte(#[trigger] b[i]) by {
        assert(s@[i] as u8 == b[i]);
    }
    lemma_form_urlencoded_unreserved(b);
    assert(b.map_values(|x: u8| x as char) =~= s@);
}

/// An HTTP status code as a number: `reqwest` accepts exactly the codes from
/// 100 to 999.
pub open spec fn is_status_code(status: u16) -> bool {
    100 <= status <= 999
}

/// A status in 400-499.
pub open spec fn is_client_error(status: u16) -> bool {
    400 <= status < 500
}

/// A status in 500-599.
pub open spec fn is_server_error(status: u16) -> bool {
    500 <= status < 600
}

/// What the server sent back when it answered with an error status.
#[derive(Debug, Clone)]
pub struct ResponseContent<T> {
    /// The HTTP status code of the response.
    pub status: u16,
    /// The body of the response, as text.
    pub content: String,
    /// The body decoded as the endpoint's error type, where it decodes.
    pub entity: Option<T>,
}

/// The errors of an API call.
#[derive(Debug)]
pub enum ApiError<T> {
    Reqwest(reqwest::Error),
    Serde(serde_json::Error),
    Io(std::io::Error),
    ResponseError(ResponseContent<T>),
}

impl<T> From<reqwest::Error> for ApiError<T> {
    fn from(e: reqwest::Error) -> (res: Self) {
        ApiError::Reqwest(e)
    }
}

impl<T> vstd::std_specs::convert::FromSpecImpl<reqwest::Error> for ApiError<T> {
    open spec fn obeys_from_spec() -> bool {
        true
    }

    open spec fn from_spec(e: reqwest::Error) -> Self {
        ApiError::Reqwest(e)
    }
}

impl<T> From<serde_json::Error> for ApiError<T> {
    fn from(e: serde_json::Error) -> (res: Self) {
        ApiError::Serde(e)
    }
}

impl<T> vstd::std_specs::convert::FromSpecImpl<serde_json::Error> for ApiError<T> {
    open spec fn obeys_from_spec() -> bool {
        true
    }

    open spec fn from_spec(e: serde_json::Error) -> Self {
        ApiError::Serde(e)
    }
}

impl<T> From<std::io::Error> for ApiError<T> {
    fn from(e: std::io::Error) -> (res: Self) {
        ApiError::Io(e)
    }
}

impl<T> vstd::std_specs::convert::FromSpecImpl<std::io::Error> for ApiError<T> {
    open spec fn obeys_from_spec() -> bool {
        true
    }

    open spec fn from_spec(e: std::io::Error) -> Self {
        ApiError::Io(e)
    }
}

/// The text of an error: `error in {module}: {detail}`.
pub open spec fn error_message(module: Seq<char>, detail: Seq<char>) -> Seq<char> {
    "error in "@ + module + ": "@ + detail
}

/// The detail of a `ResponseError`: `status code {status}`, followed by
/// ` \u{2014} {entity}` where the body decoded as the endpoint's error type.
pub open spec fn response_detail(status: u16, entity_text: Option<Seq<char>>) -> Seq<char> {
    "status code "@ + status_display(status) + match entity_text {
        Some(t) => " \u{2014} "@ + t,
        None => Seq::empty(),
    }
}

impl<T> ApiError<T> {
    /// The name of the layer that failed: `reqwest`, `serde`, `IO` or
    /// `response`.
    pub open spec fn module_name(self) -> Seq<char> {
        match self {
            ApiError::Reqwest(_) => "reqwest"@,
            ApiError::Serde(_) => "serde"@,
            ApiError::Io(_) => "IO"@,
            ApiError::ResponseError(_) => "response"@,
        }
    }

    /// The status of a `ResponseError` is one that HTTP can carry.
    pub open spec fn well_formed(self) -> bool {
        self matches ApiError::ResponseError(rc) ==> is_status_code(rc.status)
    }
}

/// `text` is what formatting `value` with its `Debug` implementation gave
/// (through `debug_text`, a call of `format!("{:?}")`).
pub closed spec fn is_debug_text<T: core::fmt::Debug>(value: T, text: Seq<char>) -> bool {
    exists|s: String| #[trigger] call_ensures(debug_text::<T>, (&value,), s) && s@ == text
}

/// `text` is the message of a `ResponseError` with this status and decoded
/// entity: `error in response: status code {status}`, followed by
/// ` \u{2014} {entity}` with the entity's `Debug` text where there is one.
/// The raw body has no part in it.
pub open spec fn is_response_message<T: core::fmt::Debug>(
    status: u16,
    entity: Option<T>,
    text: Seq<char>,
) -> bool {
    exists|t: Option<Seq<char>>|
        (match entity {
            Some(en) => t matches Some(d) && is_debug_text(en, d),
            None => t is None,
        }) && text == error_message("response"@, #[trigger] response_detail(status, t))
}

/// The raw body never reaches the message: two response errors with the
/// same status and entity have the same message, whatever their bodies,
/// where formatting the entity gives one text.
pub proof fn lemma_message_ignores_body<T: core::fmt::Debug>(
    first: ResponseContent<T>,
    second: ResponseContent<T>,
    first_text: Seq<char>,
    second_text: Seq<char>,
)
    requires
        first.status == second.status,
        first.entity == second.entity,
        first.entity matches Some(en) ==> forall|d1: Seq<char>, d2: Seq<char>|
            #[trigger] is_debug_text(en, d1) && #[trigger] is_debug_text(en, d2) ==> d1 == d2,
        is_response_message(first.status, first.entity, first_text),
        is_response_message(second.status, second.entity, second_text),
    ensures
        first_text == second_text,
{
    let t1 = choose|t: Option<Seq<char>>|
        (match first.entity {
            Some(en) => t matches Some(d) && is_debug_text(en, d),
            None => t is None,
        }) && first_text == error_message("response"@, #[trigger] response_detail(first.status, t));
    let t2 = choose|t: Option<Seq<char>>|
        (match second.entity {
            Some(en) => t matches Some(d) && is_debug_text(en, d),
            None => t is None,
        }) && second_text == error_message("response"@, #[trigger] response_detail(second.status, t));
    if let Some(en) = first.entity {
        assert(is_debug_text(en, t1->0));
        assert(is_debug_text(en, t2->0));
    }
    assert(t1 == t2);
}

impl<T: core::fmt::Debug> ApiError<T> {
    /// The text of the error, as `Display` would show it:
    /// `error in {module}: {detail}`, where the detail is the text of the
    /// underlying error, or for a `ResponseError` the status code with its
    /// reason phrase and the decoded body, if any.
    pub fn to_string(&self) -> (res: String)
        requires
            self.well_formed(),
        ensures
            match self {
                ApiError::Reqwest(e) => exists|d: String| #[trigger]
                    to_string_from_display_ensures(e, d) && res@ == error_message(
                        self.module_name(),
                        d@,
                    ),
                ApiError::Serde(e) => exists|d: String| #[trigger]
                    to_string_from_display_ensures(e, d) && res@ == error_message(
                        self.module_name(),
                        d@,
                    ),
                ApiError::Io(e) => exists|d: String| #[trigger]
                    to_string_from_display_ensures(e, d) && res@ == error_message(
                        self.module_name(),
                        d@,
                    ),
                ApiError::ResponseError(rc) => is_response_message(rc.status, rc.entity, res@),
            },
    {
        let mut detail = String::new();
        let module: &str;
        let ghost entity_text: Option<Seq<char>> = None;
        match self {
            ApiError::Reqwest(e) => {
                module = "reqwest";
                detail = e.to_string();
            },
            ApiError::Serde(e) => {
                module = "serde";
                detail = e.to_string();
            },
            ApiError::Io(e) => {
                module = "IO";
                detail = e.to_string();
            },
            ApiError::ResponseError(rc) => {
                module = "response";
                detail.append("status code ");
                let status = status_text(rc.status);
                detail.append(status.as_str());
                match &rc.entity {
                    Some(en) => {
                        let format_debug = debug_text::<T>;
                        let text = format_debug(en);
                        detail.append(" \u{2014} ");
                        detail.append(text.as_str());
                        proof {
                            entity_text = Some(text@);
                        }
                    },
                    None => {},
                }
                assert(detail@ =~= response_detail(rc.status, entity_text));
            },
        }
        let mut res = String::new();
        res.append("error in ");
        res.append(module);
        res.append(": ");
        res.append(detail.as_str());
        assert(module@ == self.module_name());
        assert(res@ =~= error_message(self.module_name(), detail@));
        res
    }
}

/// A status that the API treats as success: neither a client nor a server
/// error.
pub open spec fn is_success_status(status: u16) -> bool {
    !is_client_error(status) && !is_server_error(status)
}

/// Whether a response with this status carries the endpoint's result rather
/// than an error.
pub fn status_is_success(status: u16) -> (res: bool)
    ensures
        res == is_success_status(status),
        res <==> (status < 400 || status >= 600),
{
    !(400 <= status && status < 500) && !(500 <= status && status < 600)
}

/// The value of a decoder's answer: `Some` of what it decoded, `None` where
/// it failed (`Result::ok`).
pub open spec fn decoded_value<E>(answer: Result<E, serde_json::Error>) -> Option<E> {
    match answer {
        Ok(v) => Some(v),
        Err(_) => None,
    }
}

/// The statuses that are errors are exactly 400 to 599: a status is a success
/// exactly when it is below 400 or at least 600.
pub proof fn lemma_success_status_by_number(status: u16)
    ensures
        is_success_status(status) <==> (status < 400 || status >= 600),
        400 <= status <= 499 ==> !is_success_status(status),
        500 <= status <= 599 ==> !is_success_status(status),
{
}

/// The entity that an error response carries is the decoder's answer on the
/// body, whatever the body: `Some(v)` where the decoder gave `Ok(v)`, `None`
/// where it gave an error.
pub proof fn lemma_entity_is_decoder_answer<E, G: FnOnce(&String) -> Result<E, serde_json::Error>>(
    parse_entity: G,
    content: String,
    entity: Option<E>,
)
    requires
        entity_decoded(parse_entity, content, entity),
    ensures
        exists|answer: Result<E, serde_json::Error>|
            #[trigger] call_ensures(parse_entity, (&content,), answer) && entity == match answer {
                Ok(v) => Some(v),
                Err(_) => None::<E>,
            },
        entity matches Some(v) ==> call_ensures(parse_entity, (&content,), Ok::<
            E,
            serde_json::Error,
        >(v)),
{
    match entity {
        Some(v) => {
            assert(call_ensures(parse_entity, (&content,), Ok::<E, serde_json::Error>(v)));
        },
        None => {
            let e = choose|e: serde_json::Error| #[trigger]
                call_ensures(parse_entity, (&content,), Err::<E, serde_json::Error>(e));
            assert(call_ensures(parse_entity, (&content,), Err::<E, serde_json::Error>(e)));
        },
    }
}

/// What decoding the body as the error type left in `entity`: the decoded
/// value where the decoder succeeded, nothing where it failed.
pub open spec fn entity_decoded<E, G: FnOnce(&String) -> Result<E, serde_json::Error>>(
    parse_entity: G,
    content: String,
    entity: Option<E>,
) -> bool {
    match entity {
        Some(v) => call_ensures(parse_entity, (&content,), Ok(v)),
        None => exists|e: serde_json::Error| #[trigger]
            call_ensures(parse_entity, (&content,), Err(e)),
    }
}

/// Where the decoder gives one answer for one body (as `serde_json::from_str`
/// does), the entity decoded from a body is unique: an error response read
/// with `response_error` and with `parse_response_content` carries the same
/// entity for the same status and body.
pub proof fn lemma_entity_decoded_unique<E, G: FnOnce(&String) -> Result<E, serde_json::Error>>(
    parse_entity: G,
    content: String,
    first: Option<E>,
    second: Option<E>,
)
    requires
        forall|r1: Result<E, serde_json::Error>, r2: Result<E, serde_json::Error>|
            #[trigger] call_ensures(parse_entity, (&content,), r1) && #[trigger] call_ensures(
                parse_entity,
                (&content,),
                r2,
            ) ==> r1 == r2,
        entity_decoded(parse_entity, content, first),
        entity_decoded(parse_entity, content, second),
    ensures
        first == second,
{
    match (first, second) {
        (Some(a), Some(b)) => {
            assert(call_ensures(parse_entity, (&content,), Ok::<E, serde_json::Error>(a)));
            assert(call_ensures(parse_entity, (&content,), Ok::<E, serde_json::Error>(b)));
        },
        (Some(a), None) => {
            let e = choose|e: serde_json::Error| #[trigger]
                call_ensures(parse_entity, (&content,), Err::<E, serde_json::Error>(e));
            assert(call_ensures(parse_entity, (&content,), Ok::<E, serde_json::Error>(a)));
        },
        (None, Some(b)) => {
            let e = choose|e: serde_json::Error| #[trigger]
                call_ensures(parse_entity, (&content,), Err::<E, serde_json::Error>(e));
            assert(call_ensures(parse_entity, (&content,), Ok::<E, serde_json::Error>(b)));
        },
        (None, None) => {},
    }
}

/// The error for a response with an error status: the status and the body
/// are kept, and the body decoded as the endpoint's error type where it
/// decodes.
pub fn response_error<E, G>(status: u16, content: String, parse_entity: G) -> (res: ApiError<E>) where
    G: FnOnce(&String) -> Result<E, serde_json::Error>,

    requires
        call_requires(parse_entity, (&content,)),
    ensures
        res matches ApiError::ResponseError(rc) && rc.status == status && rc.content == content
            && entity_decoded(parse_entity, content, rc.entity),
        res matches ApiError::ResponseError(rc) && exists|answer: Result<E, serde_json::Error>|
            #[trigger] call_ensures(parse_entity, (&content,), answer) && rc.entity == decoded_value(
                answer,
            ),
{
    let decoded = parse_entity(&content);
    let entity = match decoded {
        Ok(v) => Some(v),
        Err(e) => {
            assert(call_ensures(parse_entity, (&content,), Err(e)));
            None
        },
    };
    ApiError::ResponseError(ResponseContent { status, content, entity })
}

/// Turns a response, given by its status and body, into the endpoint's
/// result: on a success status the body decoded as the result type (a
/// decoding failure is a `Serde` error), on an error status a
/// `ResponseError` that keeps the status and body.
pub fn parse_response_content<T, E, F, G>(
    status: u16,
    content: String,
    parse_value: F,
    parse_entity: G,
) -> (res: Result<T, ApiError<E>>) where
    F: FnOnce(&String) -> Result<T, serde_json::Error>,
    G: FnOnce(&String) -> Result<E, serde_json::Error>,

    requires
        call_requires(parse_value, (&content,)),
        call_requires(parse_entity, (&content,)),
    ensures
        is_success_status(status) ==> match res {
            Ok(v) => call_ensures(parse_value, (&content,), Ok(v)),
            Err(ApiError::Serde(e)) => call_ensures(parse_value, (&content,), Err(e)),
            Err(_) => false,
        },
        !is_success_status(status) ==> (res matches Err(ApiError::ResponseError(rc))
            && rc.status == status && rc.content == content && entity_decoded(
            parse_entity,
            content,
            rc.entity,
        )),
        400 <= status <= 599 ==> (res matches Err(ApiError::ResponseError(rc)) && rc.status
            == status && rc.content == content && exists|answer: Result<E, serde_json::Error>|
            #[trigger] call_ensures(parse_entity, (&content,), answer) && rc.entity
                == decoded_value(answer)),
        (status < 400 || status >= 600) ==> !(res matches Err(ApiError::ResponseError(_))),
{
    if status_is_success(status) {
        match parse_value(&content) {
            Ok(v) => Ok(v),
            Err(e) => Err(ApiError::Serde(e)),
        }
    } else {
        Err(response_error(status, content, parse_entity))
    }
}

} // verus!
