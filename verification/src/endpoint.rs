//! The uniform answer of an endpoint: a result code, a message and an optional
//! payload, and the HTTP status that each code is answered with.

use vstd::prelude::*;

verus! {

/// The outcome an endpoint reports.
#[derive(Debug, Clone, Copy, PartialEq, Eq, Structural)]
pub enum EndpointResultCode {
    SUCCESS,
    ServerError,
    ClientError,
    AccessDenied,
    Unauthorized,
    NotFound,
}

/// An endpoint's answer: code, message and optional payload.
pub struct EndpointResult<T> {
    code: EndpointResultCode,
    msg: &'static str,
    payload: Option<T>,
}

impl<T> EndpointResult<T> {
    pub closed spec fn code_view(&self) -> EndpointResultCode {
        self.code
    }

    pub closed spec fn msg_view(&self) -> Seq<char> {
        self.msg@
    }

    pub closed spec fn payload_view(&self) -> Option<T> {
        self.payload
    }

    /// A successful answer with an empty message and no payload.
    pub fn new() -> (r: EndpointResult<T>)
        ensures
            r.code_view() == EndpointResultCode::SUCCESS,
            r.msg_view() == ""@,
            r.payload_view() is None,
    {
        EndpointResult { code: EndpointResultCode::SUCCESS, msg: "", payload: None }
    }

    pub fn set_code(&mut self, code: EndpointResultCode)
        ensures
            final(self).code_view() == code,
            final(self).msg_view() == old(self).msg_view(),
            final(self).payload_view() == old(self).payload_view(),
    {
        self.code = code;
    }

    pub fn set_msg(&mut self, msg: &'static str)
        ensures
            final(self).code_view() == old(self).code_view(),
            final(self).msg_view() == msg@,
            final(self).payload_view() == old(self).payload_view(),
    {
        self.msg = msg;
    }

    pub fn set_payload(&mut self, payload: Option<T>)
        ensures
            final(self).code_view() == old(self).code_view(),
            final(self).msg_view() == old(self).msg_view(),
            final(self).payload_view() == payload,
    {
        self.payload = payload;
    }

    pub fn ok(msg: &'static str) -> (r: Self)
        ensures
            r.code_view() == EndpointResultCode::SUCCESS,
            r.msg_view() == msg@,
            r.payload_view() is None,
    {
        EndpointResult { code: EndpointResultCode::SUCCESS, msg, payload: None }
    }

    pub fn ok_with_payload(msg: &'static str, payload: T) -> (r: Self)
        ensures
            r.code_view() == EndpointResultCode::SUCCESS,
            r.msg_view() == msg@,
            r.payload_view() == Some(payload),
    {
        EndpointResult { code: EndpointResultCode::SUCCESS, msg, payload: Some(payload) }
    }

    pub fn server_error(msg: &'static str) -> (r: Self)
        ensures
            r.code_view() == EndpointResultCode::ServerError,
            r.msg_view() == msg@,
            r.payload_view() is None,
    {
        EndpointResult { code: EndpointResultCode::ServerError, msg, payload: None }
    }

    pub fn server_error_with_payload(msg: &'static str, payload: T) -> (r: Self)
        ensures
            r.code_view() == EndpointResultCode::ServerError,
            r.msg_view() == msg@,
            r.payload_view() == Some(payload),
    {
        EndpointResult { code: EndpointResultCode::ServerError, msg, payload: Some(payload) }
    }

    pub fn client_error(msg: &'static str) -> (r: Self)
        ensures
            r.code_view() == EndpointResultCode::ClientError,
            r.msg_view() == msg@,
            r.payload_view() is None,
    {
        EndpointResult { code: EndpointResultCode::ClientError, msg, payload: None }
    }

    pub fn client_error_with_payload(msg: &'static str, payload: T) -> (r: Self)
        ensures
            r.code_view() == EndpointResultCode::ClientError,
            r.msg_view() == msg@,
            r.payload_view() == Some(payload),
    {
        EndpointResult { code: EndpointResultCode::ClientError, msg, payload: Some(payload) }
    }

    pub fn access_denied(msg: &'static str) -> (r: Self)
        ensures
            r.code_view() == EndpointResultCode::AccessDenied,
            r.msg_view() == msg@,
            r.payload_view() is None,
    {
        EndpointResult { code: EndpointResultCode::AccessDenied, msg, payload: None }
    }

    pub fn access_denied_with_payload(msg: &'static str, payload: T) -> (r: Self)
        ensures
            r.code_view() == EndpointResultCode::AccessDenied,
            r.msg_view() == msg@,
            r.payload_view() == Some(payload),
    {
        EndpointResult { code: EndpointResultCode::AccessDenied, msg, payload: Some(payload) }
    }

    pub fn unauthorized(msg: &'static str) -> (r: Self)
        ensures
            r.code_view() == EndpointResultCode::Unauthorized,
            r.msg_view() == msg@,
            r.payload_view() is None,
    {
        EndpointResult { code: EndpointResultCode::Unauthorized, msg, payload: None }
    }

    pub fn unauthorized_with_payload(msg: &'static str, payload: T) -> (r: Self)
        ensures
            r.code_view() == EndpointResultCode::Unauthorized,
            r.msg_view() == msg@,
            r.payload_view() == Some(payload),
    {
        EndpointResult { code: EndpointResultCode::Unauthorized, msg, payload: Some(payload) }
    }

    pub fn code(&self) -> (r: EndpointResultCode)
        ensures
            r == self.code_view(),
    {
        self.code
    }

    pub fn msg(&self) -> (r: &'static str)
        ensures
            r@ == self.msg_view(),
    {
        self.msg
    }

    pub fn payload(&self) -> (r: &Option<T>)
        ensures
            *r == self.payload_view(),
    {
        &self.payload
    }

    /// The code, message and payload.
    pub fn into_parts(self) -> (r: (EndpointResultCode, &'static str, Option<T>))
        ensures
            r.0 == self.code_view(),
            r.1@ == self.msg_view(),
            r.2 == self.payload_view(),
    {
        (self.code, self.msg, self.payload)
    }
}

/// The HTTP status of each result code.
pub open spec fn status_of(code: EndpointResultCode) -> u16 {
    match code {
        EndpointResultCode::ServerError => 500,
        EndpointResultCode::SUCCESS => 200,
        EndpointResultCode::ClientError => 400,
        EndpointResultCode::AccessDenied => 403,
        EndpointResultCode::Unauthorized => 401,
        EndpointResultCode::NotFound => 404,
    }
}

/// The content type of an endpoint's JSON answer.
pub const JSON_CONTENT_TYPE: &'static str = "application/json; charset=UTF-8";

/// Builds the answers of endpoints.
pub struct ResponseBuilder;

impl ResponseBuilder {
    /// The HTTP status that an answer with this code is sent with.
    pub fn status_for(code: EndpointResultCode) -> (r: u16)
        ensures
            r == status_of(code),
    {
        match code {
            EndpointResultCode::ServerError => 500,
            EndpointResultCode::SUCCESS => 200,
            EndpointResultCode::ClientError => 400,
            EndpointResultCode::AccessDenied => 403,
            EndpointResultCode::Unauthorized => 401,
            EndpointResultCode::NotFound => 404,
        }
    }

    /// An answer with a message, the given code and an empty text payload.
    pub fn with_msg(msg: &'static str, code: EndpointResultCode) -> (r: EndpointResult<&'static str>)
        ensures
            r.code_view() == code,
            r.msg_view() == msg@,
            r.payload_view() matches Some(p) && p@ == ""@,
    {
        let mut endpoint_result = EndpointResult::new();
        endpoint_result.set_msg(msg);
        endpoint_result.set_code(code);
        endpoint_result.set_payload(Some(""));
        endpoint_result
    }

    /// An answer with a message, a payload and the given code.
    pub fn with_msg_and_payload<T>(msg: &'static str, payload: T, code: EndpointResultCode) -> (r: EndpointResult<T>)
        ensures
            r.code_view() == code,
            r.msg_view() == msg@,
            r.payload_view() == Some(payload),
    {
        let mut endpoint_result = EndpointResult::new();
        endpoint_result.set_msg(msg);
        endpoint_result.set_code(code);
        endpoint_result.set_payload(Some(payload));
        endpoint_result
    }

    /// The status of the answer to a request that no route matches: 404.
    pub fn not_found_status() -> (r: u16)
        ensures
            r == 404,
    {
        404
    }
}

/// The filter that logs every request.
pub struct AccessLogFilter;

impl AccessLogFilter {
    pub fn url_patterns(&self) -> (r: &'static str)
        ensures
            r@ == "/*"@,
    {
        "/*"
    }

    pub fn name(&self) -> (r: &'static str)
        ensures
            r@ == "AccessLogFilter"@,
    {
        "AccessLogFilter"
    }
}

/// Hands handlers the per-request state that providers attached.
pub struct RequestStateResolver;


/// Dispatches requests to handlers (no behaviour of its own yet).
pub struct Dispatcher {}

/// Which half of a header failed to convert, with the conversion's error.
pub enum TryIntoHeaderErrorKind<K, V> {
    Key(K),
    Value(V),
}

/// The error returned when converting a value to a header fails.
pub struct TryIntoHeaderError<K, V> {
    kind: TryIntoHeaderErrorKind<K, V>,
}

impl<K, V> TryIntoHeaderError<K, V> {
    pub closed spec fn kind_spec(&self) -> TryIntoHeaderErrorKind<K, V> {
        self.kind
    }

    /// The header name could not be converted.
    pub fn key(err: K) -> (r: Self)
        ensures
            r.kind_spec() == TryIntoHeaderErrorKind::<K, V>::Key(err),
    {
        TryIntoHeaderError { kind: TryIntoHeaderErrorKind::Key(err) }
    }

    /// The header value could not be converted.
    pub fn value(err: V) -> (r: Self)
        ensures
            r.kind_spec() == TryIntoHeaderErrorKind::<K, V>::Value(err),
    {
        TryIntoHeaderError { kind: TryIntoHeaderErrorKind::Value(err) }
    }

    /// Which half failed, and why.
    pub fn kind(&self) -> (r: &TryIntoHeaderErrorKind<K, V>)
        ensures
            *r == self.kind_spec(),
    {
        &self.kind
    }
}

/// Headers to append to a response, in order, keeping earlier values of the
/// same name.
pub struct AppendHeaders<K, V, const N: usize>(pub [(K, V); N]);

} // verus!
