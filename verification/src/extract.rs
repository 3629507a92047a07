//! Request data extraction: content types, form parameters, and the wrappers
//! that handlers receive extracted values in.

use vstd::prelude::*;
use crate::text::{starts_with, chars_of};
use crate::endpoint::{EndpointResult, EndpointResultCode};

verus! {

/// Why a value could not be extracted from a request.
#[derive(Debug)]
pub enum ExtractError {
    InvalidFormContentType,
    FailedToDeserializeQueryString(String),
    FailedToDeserializeFormData(String),
    MissingJsonContentType,
    JsonIoError(String),
    JsonDataError(String),
    JsonSyntaxError,
    Unknown,
}

impl ExtractError {
    /// The message shown for the error.
    pub fn message(&self) -> (r: String)
        ensures
            self is InvalidFormContentType ==> r@ == "无效的form content-type"@,
            self matches ExtractError::FailedToDeserializeQueryString(m) ==> r@ == "反系列化Url请求参数为对象失败："@ + m@,
            self matches ExtractError::FailedToDeserializeFormData(m) ==> r@ == "反系列化Form参数为对象失败："@ + m@,
            self is MissingJsonContentType ==> r@ == "未发现Json数据"@,
            self matches ExtractError::JsonIoError(m) ==> r@ == "Json IO错误："@ + m@,
            self matches ExtractError::JsonDataError(m) ==> r@ == "Json对象类型映射错误："@ + m@,
            self is JsonSyntaxError ==> r@ == "Json格式无效"@,
            self is Unknown ==> r@ == "未知错误"@,
    {
        match self {
            ExtractError::InvalidFormContentType => "无效的form content-type".to_string(),
            ExtractError::FailedToDeserializeQueryString(m) => crate::text::concat("反系列化Url请求参数为对象失败：", m.as_str()),
            ExtractError::FailedToDeserializeFormData(m) => crate::text::concat("反系列化Form参数为对象失败：", m.as_str()),
            ExtractError::MissingJsonContentType => "未发现Json数据".to_string(),
            ExtractError::JsonIoError(m) => crate::text::concat("Json IO错误：", m.as_str()),
            ExtractError::JsonDataError(m) => crate::text::concat("Json对象类型映射错误：", m.as_str()),
            ExtractError::JsonSyntaxError => "Json格式无效".to_string(),
            ExtractError::Unknown => "未知错误".to_string(),
        }
    }

    /// The HTTP status of the answer to a request whose extraction failed: 400.
    pub fn status(&self) -> (r: u16)
        ensures
            r == 400,
    {
        400
    }
}

/// A value deserialized from a form body or query string.
#[derive(Debug, Clone, Copy, Default)]
pub struct Form<T>(pub T);

/// A value taken from a request header.
#[derive(Debug, Clone, Copy, Default)]
pub struct Header<T>(pub T);

/// A value deserialized from, or serialized as, a JSON body.
#[derive(Debug, Clone, Copy, Default)]
pub struct Json<T>(pub T);

/// A value deserialized from the query string.
#[derive(Debug, Clone, Copy, Default)]
pub struct Query<T>(pub T);

/// Whether a request whose `Content-Type` header is `content_type` (absent, or
/// not readable as text, when `None`) has the content type `expected`: the
/// header starts with it.
pub fn has_content_type(content_type: Option<&str>, expected: &str) -> (r: bool)
    ensures
        r == (content_type matches Some(c) && crate::text::is_prefix(expected@, c@)),
{
    match content_type {
        Some(c) => starts_with(c, expected),
        None => false,
    }
}

/// ASCII lowercase of one character.
pub open spec fn ascii_lower(c: char) -> char {
    if 'A' <= c && c <= 'Z' {
        ((c as u32) + 32) as char
    } else {
        c
    }
}

/// Equality up to ASCII case (`str::eq_ignore_ascii_case`).
pub open spec fn eq_ignore_ascii_case(a: Seq<char>, b: Seq<char>) -> bool {
    a.len() == b.len() && forall|i: int| 0 <= i < a.len() ==> ascii_lower(#[trigger] a[i]) == ascii_lower(b[i])
}

fn lower_char(c: char) -> (r: char)
    ensures
        r == ascii_lower(c),
{
    if 'A' <= c && c <= 'Z' {
        let u = c as u32 + 32;
        assert(0x61 <= u <= 0x7a);
        char_from_ascii(u)
    } else {
        c
    }
}

/// The character with an ASCII code point.
fn char_from_ascii(u: u32) -> (r: char)
    requires
        u < 128,
    ensures
        r == u as char,
{
    (u as u8) as char
}

/// Whether two strings are equal up to ASCII case.
pub fn str_eq_ignore_ascii_case(a: &str, b: &str) -> (r: bool)
    ensures
        r == eq_ignore_ascii_case(a@, b@),
{
    let x = chars_of(a);
    let y = chars_of(b);
    if x.len() != y.len() {
        return false;
    }
    let mut i: usize = 0;
    while i < x.len()
        invariant
            x@ == a@,
            y@ == b@,
            x@.len() == y@.len(),
            i <= x@.len(),
            forall|j: int| 0 <= j < i ==> ascii_lower(#[trigger] a@[j]) == ascii_lower(b@[j]),
        decreases x@.len() - i,
    {
        if lower_char(x[i]) != lower_char(y[i]) {
            return false;
        }
        i = i + 1;
    }
    true
}

/// What `mime::Mime`'s parser makes of a text: type, subtype and suffix, or
/// `None` when the text is not a media type.
pub uninterp spec fn mime_parts(s: Seq<char>) -> Option<(Seq<char>, Seq<char>, Option<Seq<char>>)>;

/// Parses a media type with the `mime` crate (`str::parse::<mime::Mime>`) and
/// hands out its type, subtype and suffix as text.
#[verifier::external_body]
fn parse_mime(s: &str) -> (r: Option<(String, String, Option<String>)>)
    ensures
        r matches Some(p) ==> mime_parts(s@) == Some((p.0@, p.1@, match p.2 {
            Some(x) => Some(x@),
            None => None,
        })),
        r is None ==> mime_parts(s@) is None,
{
    match s.parse::<mime::Mime>() {
        Ok(m) => Some((
            m.type_().as_str().to_string(),
            m.subtype().as_str().to_string(),
            m.suffix().map(|x| x.as_str().to_string()),
        )),
        Err(_) => None,
    }
}

/// Whether media type parts are JSON: type `application` and subtype `json` or
/// suffix `json`, compared up to ASCII case.
pub open spec fn is_json_parts(p: (Seq<char>, Seq<char>, Option<Seq<char>>)) -> bool {
    eq_ignore_ascii_case(p.0, "application"@) && (eq_ignore_ascii_case(p.1, "json"@) || (p.2 matches Some(x)
        && eq_ignore_ascii_case(x, "json"@)))
}

/// Whether a request whose `Content-Type` header is `content_type` carries JSON.
pub fn json_content_type(content_type: Option<&str>) -> (r: bool)
    ensures
        r == (content_type matches Some(c) && mime_parts(c@) matches Some(p) && is_json_parts(p)),
{
    let c = match content_type {
        Some(c) => c,
        None => return false,
    };
    match parse_mime(c) {
        Some((t, s, x)) => {
            let app = str_eq_ignore_ascii_case(t.as_str(), "application");
            let json_sub = str_eq_ignore_ascii_case(s.as_str(), "json");
            let json_suffix = match &x {
                Some(v) => str_eq_ignore_ascii_case(v.as_str(), "json"),
                None => false,
            };
            app && (json_sub || json_suffix)
        },
        None => false,
    }
}

/// What `form_urlencoded::parse` yields for a body: the decoded
/// `name=value` pairs, in order.
pub uninterp spec fn form_pairs(body: Seq<u8>) -> Seq<(Seq<char>, Seq<char>)>;

/// The views of a list of pairs of strings.
pub open spec fn pair_views(s: Seq<(String, String)>) -> Seq<(Seq<char>, Seq<char>)> {
    s.map_values(|p: (String, String)| (p.0@, p.1@))
}

/// Decodes an `application/x-www-form-urlencoded` body with
/// `form_urlencoded::parse(..).into_owned()`.
#[verifier::external_body]
pub fn parse_form_params(body: &[u8]) -> (r: Vec<(String, String)>)
    ensures
        pair_views(r@) == form_pairs(body@),
{
    form_urlencoded::parse(body).into_owned().collect()
}

/// The value of `key` in a list of pairs collected into a map: the last pair
/// with that key wins.
pub open spec fn last_value(s: Seq<(Seq<char>, Seq<char>)>, key: Seq<char>) -> Option<Seq<char>>
    decreases s.len(),
{
    if s.len() == 0 {
        None
    } else if s.last().0 == key {
        Some(s.last().1)
    } else {
        last_value(s.drop_last(), key)
    }
}

/// The value of the form parameter `key` (the last one, when it repeats).
pub fn form_param<'a>(params: &'a Vec<(String, String)>, key: &str) -> (r: Option<&'a String>)
    ensures
        r matches Some(v) ==> last_value(pair_views(params@), key@) == Some(v@),
        r is None ==> last_value(pair_views(params@), key@) is None,
{
    let mut i = params.len();
    assert(params@.subrange(0, i as int) =~= params@);
    while i > 0
        invariant
            i <= params@.len(),
            last_value(pair_views(params@), key@) == last_value(pair_views(params@.subrange(0, i as int)), key@),
        decreases i,
    {
        let ghost prefix = pair_views(params@.subrange(0, i as int));
        assert(prefix.drop_last() =~= pair_views(params@.subrange(0, i - 1)));
        if crate::text::str_eq(params[i - 1].0.as_str(), key) {
            return Some(&params[i - 1].1);
        }
        i = i - 1;
    }
    None
}


/// `mime::APPLICATION_WWW_FORM_URLENCODED` as text.
#[verifier::external_body]
fn form_urlencoded_mime() -> (r: &'static str)
    ensures
        r@ == "application/x-www-form-urlencoded"@,
{
    mime::APPLICATION_WWW_FORM_URLENCODED.as_ref()
}

/// Where a form value is read from.
#[derive(Debug, PartialEq, Eq, Structural, Clone, Copy)]
pub enum FormSource {
    /// The query string of a `GET` request.
    QueryString,
    /// The URL-encoded body of any other request.
    Body,
}

/// Where a form value of a request is read from: the query string of a `GET`
/// request; otherwise the body, which must be declared
/// `application/x-www-form-urlencoded`.
pub fn form_source(is_get: bool, content_type: Option<&str>) -> (r: Result<FormSource, ExtractError>)
    ensures
        is_get ==> r == Ok::<FormSource, ExtractError>(FormSource::QueryString),
        !is_get && (content_type matches Some(c) && crate::text::is_prefix("application/x-www-form-urlencoded"@, c@))
            ==> r == Ok::<FormSource, ExtractError>(FormSource::Body),
        !is_get && !(content_type matches Some(c) && crate::text::is_prefix("application/x-www-form-urlencoded"@, c@))
            ==> r matches Err(ExtractError::InvalidFormContentType),
{
    if is_get {
        Ok(FormSource::QueryString)
    } else if has_content_type(content_type, form_urlencoded_mime()) {
        Ok(FormSource::Body)
    } else {
        Err(ExtractError::InvalidFormContentType)
    }
}

/// The kinds of JSON decoding failure (those of `serde_json::error::Category`).
#[derive(Debug, PartialEq, Eq, Structural, Clone, Copy)]
pub enum JsonErrorCategory {
    Io,
    Syntax,
    Data,
    Eof,
}

/// The rejection of a JSON body that did not decode, with the decoder's
/// message: a data error when the JSON did not fit the type, a syntax error
/// otherwise (bodies are buffered before decoding, so an I/O failure is
/// reported as a syntax error).
pub fn json_rejection(category: JsonErrorCategory, detail: String) -> (r: ExtractError)
    ensures
        category == JsonErrorCategory::Data ==> (r matches ExtractError::JsonDataError(m) && m@ == detail@),
        category != JsonErrorCategory::Data ==> r is JsonSyntaxError,
{
    match category {
        JsonErrorCategory::Data => ExtractError::JsonDataError(detail),
        _ => ExtractError::JsonSyntaxError,
    }
}

/// A JSON body is only read from a request that declares JSON content.
pub fn json_request_check(content_type: Option<&str>) -> (r: Result<(), ExtractError>)
    ensures
        (content_type matches Some(c) && mime_parts(c@) matches Some(p) && is_json_parts(p)) ==> r is Ok,
        !(content_type matches Some(c) && mime_parts(c@) matches Some(p) && is_json_parts(p)) ==> r matches Err(
            ExtractError::MissingJsonContentType,
        ),
{
    if json_content_type(content_type) {
        Ok(())
    } else {
        Err(ExtractError::MissingJsonContentType)
    }
}


/// The answer when a value cannot be written as JSON: a client error saying
/// the JSON data is invalid, with an empty payload.
pub fn json_failure_result() -> (r: EndpointResult<String>)
    ensures
        r.code_view() == EndpointResultCode::ClientError,
        r.msg_view() == "无效的JSON数据"@,
        r.payload_view() matches Some(p) && p@ == Seq::<char>::empty(),
{
    EndpointResult::client_error_with_payload("无效的JSON数据", String::new())
}

} // verus!
