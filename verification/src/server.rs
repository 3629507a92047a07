//! The decisions the server makes around each request: which filter of the
//! chain runs next, what a login answers, and what is added to or put in
//! place of the response.

use vstd::prelude::*;
use crate::endpoint::{EndpointResult, EndpointResultCode};
use crate::jwt::AccessToken;
use crate::session::session_set_cookie;

verus! {

/// What runs next in the filter chain.
#[derive(PartialEq, Eq, Structural, Clone, Copy, Debug)]
pub enum ChainStep {
    /// The filter at this position of the chain.
    Filter(usize),
    /// No filter is left: the endpoint.
    Endpoint,
}

/// The next step of a filter chain from position `from` on, where
/// `matched[i]` tells whether the request matches the URL patterns of filter
/// `i`: the first filter from `from` on that matches, and the endpoint when
/// none does. A filter whose patterns the request does not match is skipped.
pub fn next_in_chain(matched: &Vec<bool>, from: usize) -> (r: ChainStep)
    ensures
        r matches ChainStep::Filter(i) ==> from <= i < matched@.len() && matched@[i as int] && forall|j: int|
            from <= j < i ==> !#[trigger] matched@[j],
        r is Endpoint ==> forall|j: int| from <= j < matched@.len() ==> !#[trigger] matched@[j],
{
    let mut i = from;
    while i < matched.len()
        invariant
            from <= i,
            forall|j: int| from <= j < i && j < matched@.len() ==> !#[trigger] matched@[j],
        decreases matched@.len() - i,
    {
        if matched[i] {
            return ChainStep::Filter(i);
        }
        i = i + 1;
    }
    ChainStep::Endpoint
}

/// The `Set-Cookie` header that a response carries: the session cookie when
/// the request started a new session, nothing otherwise.
pub fn session_cookie_header(is_new_session: bool, session_id: &str) -> (r: Option<String>)
    ensures
        !is_new_session ==> r is None,
        is_new_session ==> (r matches Some(h) && h@ == "session_id="@ + session_id@ + "; Path=/; Max-Age=2592000"@),
{
    if is_new_session {
        Some(session_set_cookie(session_id))
    } else {
        None
    }
}

/// The message of the answer to a request whose handling failed.
pub const REQUEST_FAILED_MESSAGE: &'static str = "?????????????????????";

/// The answer to a request whose handling failed: a server error.
pub fn request_failure_result() -> (r: EndpointResult<String>)
    ensures
        r.code_view() == EndpointResultCode::ServerError,
        r.msg_view() == REQUEST_FAILED_MESSAGE@,
        r.payload_view() is None,
{
    EndpointResult::server_error(REQUEST_FAILED_MESSAGE)
}

/// What the login filter does once authentication has been tried.
#[derive(PartialEq, Eq, Structural, Clone, Copy, Debug)]
pub enum LoginStep {
    /// Hand the authentication to the configured success handler.
    SuccessHandler,
    /// Grant an access token to the user and answer with it.
    GrantToken,
    /// Hand the error to the configured failure handler.
    FailureHandler,
    /// Answer that the credentials are invalid.
    Unauthorized,
}

/// The login filter's step: on success the configured success handler, or a
/// granted token when none is configured; on failure the configured failure
/// handler, or an "invalid credentials" answer.
pub fn login_step(authenticated: bool, has_success_handler: bool, has_failure_handler: bool) -> (r: LoginStep)
    ensures
        authenticated && has_success_handler ==> r == LoginStep::SuccessHandler,
        authenticated && !has_success_handler ==> r == LoginStep::GrantToken,
        !authenticated && has_failure_handler ==> r == LoginStep::FailureHandler,
        !authenticated && !has_failure_handler ==> r == LoginStep::Unauthorized,
{
    if authenticated {
        if has_success_handler {
            LoginStep::SuccessHandler
        } else {
            LoginStep::GrantToken
        }
    } else if has_failure_handler {
        LoginStep::FailureHandler
    } else {
        LoginStep::Unauthorized
    }
}

/// The answer to a successful login without a success handler: the granted
/// tokens, with an empty message.
pub fn login_success_result(token: AccessToken) -> (r: EndpointResult<AccessToken>)
    ensures
        r.code_view() == EndpointResultCode::SUCCESS,
        r.msg_view() == ""@,
        r.payload_view() == Some(token),
{
    EndpointResult::ok_with_payload("", token)
}

/// The answer to a failed login without a failure handler.
pub fn login_failure_result() -> (r: EndpointResult<AccessToken>)
    ensures
        r.code_view() == EndpointResultCode::Unauthorized,
        r.msg_view() == "登录凭证无效"@,
        r.payload_view() is None,
{
    EndpointResult::unauthorized("登录凭证无效")
}

} // verus!
