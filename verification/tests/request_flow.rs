use rust_shop::endpoint::EndpointResultCode;
use rust_shop::jwt::AccessToken;
use rust_shop::server::{
    login_failure_result, login_step, login_success_result, next_in_chain, request_failure_result,
    session_cookie_header, ChainStep, LoginStep,
};

#[test]
fn chain_runs_first_matching_filter() {
    let matched = vec![false, true, true];
    assert_eq!(next_in_chain(&matched, 0), ChainStep::Filter(1));
    assert_eq!(next_in_chain(&matched, 2), ChainStep::Filter(2));
    assert_eq!(next_in_chain(&vec![false, false], 0), ChainStep::Endpoint);
    assert_eq!(next_in_chain(&matched, 3), ChainStep::Endpoint);
}

#[test]
fn new_sessions_get_a_cookie() {
    assert_eq!(session_cookie_header(false, "abc"), None);
    assert_eq!(
        session_cookie_header(true, "abc"),
        Some("session_id=abc; Path=/; Max-Age=2592000".to_string())
    );
}

#[test]
fn failed_request_is_a_server_error() {
    let r = request_failure_result();
    assert_eq!(r.code(), EndpointResultCode::ServerError);
    assert!(r.payload().is_none());
}

#[test]
fn login_steps() {
    assert_eq!(login_step(true, true, false), LoginStep::SuccessHandler);
    assert_eq!(login_step(true, false, true), LoginStep::GrantToken);
    assert_eq!(login_step(false, true, true), LoginStep::FailureHandler);
    assert_eq!(login_step(false, true, false), LoginStep::Unauthorized);
}

#[test]
fn login_answers() {
    let t = AccessToken { access_token: "a".to_string(), refresh_token: "r".to_string(), exp: 60 };
    let ok = login_success_result(t);
    assert_eq!(ok.code(), EndpointResultCode::SUCCESS);
    assert_eq!(ok.msg(), "");
    assert_eq!(ok.payload().as_ref().unwrap().access_token, "a");
    let fail = login_failure_result();
    assert_eq!(fail.code(), EndpointResultCode::Unauthorized);
    assert_eq!(fail.msg(), "登录凭证无效");
}
