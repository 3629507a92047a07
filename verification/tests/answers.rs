use rust_shop::endpoint::{
    AccessLogFilter, EndpointResult, EndpointResultCode, ResponseBuilder, TryIntoHeaderError, TryIntoHeaderErrorKind,
};

#[test]
fn status_of_each_code() {
    assert_eq!(ResponseBuilder::status_for(EndpointResultCode::SUCCESS), 200);
    assert_eq!(ResponseBuilder::status_for(EndpointResultCode::ServerError), 500);
    assert_eq!(ResponseBuilder::status_for(EndpointResultCode::ClientError), 400);
    assert_eq!(ResponseBuilder::status_for(EndpointResultCode::AccessDenied), 403);
    assert_eq!(ResponseBuilder::status_for(EndpointResultCode::Unauthorized), 401);
    assert_eq!(ResponseBuilder::status_for(EndpointResultCode::NotFound), 404);
    assert_eq!(ResponseBuilder::not_found_status(), 404);
}

#[test]
fn endpoint_result_constructors() {
    let r: EndpointResult<i32> = EndpointResult::new();
    assert_eq!(r.code(), EndpointResultCode::SUCCESS);
    assert_eq!(r.msg(), "");
    assert!(r.payload().is_none());
    assert_eq!(EndpointResult::<i32>::ok("fine").msg(), "fine");
    assert_eq!(EndpointResult::ok_with_payload("m", 5).payload(), &Some(5));
    assert_eq!(EndpointResult::<i32>::server_error("x").code(), EndpointResultCode::ServerError);
    assert_eq!(EndpointResult::server_error_with_payload("x", 1).payload(), &Some(1));
    assert_eq!(EndpointResult::<i32>::client_error("x").code(), EndpointResultCode::ClientError);
    assert_eq!(EndpointResult::client_error_with_payload("x", 2).code(), EndpointResultCode::ClientError);
    assert_eq!(EndpointResult::<i32>::access_denied("x").code(), EndpointResultCode::AccessDenied);
    assert_eq!(EndpointResult::access_denied_with_payload("x", 3).payload(), &Some(3));
    assert_eq!(EndpointResult::<i32>::unauthorized("x").code(), EndpointResultCode::Unauthorized);
    assert_eq!(EndpointResult::unauthorized_with_payload("x", 4).payload(), &Some(4));
}

#[test]
fn endpoint_result_setters_and_parts() {
    let mut r: EndpointResult<i32> = EndpointResult::new();
    r.set_code(EndpointResultCode::NotFound);
    r.set_msg("gone");
    r.set_payload(Some(9));
    assert_eq!(r.into_parts(), (EndpointResultCode::NotFound, "gone", Some(9)));
}

#[test]
fn response_builder_results() {
    let r = ResponseBuilder::with_msg("hi", EndpointResultCode::ClientError);
    assert_eq!(r.code(), EndpointResultCode::ClientError);
    assert_eq!(r.payload(), &Some(""));
    let p = ResponseBuilder::with_msg_and_payload("hi", vec![1, 2], EndpointResultCode::SUCCESS);
    assert_eq!(p.payload(), &Some(vec![1, 2]));
}

#[test]
fn access_log_filter_identity() {
    let f = AccessLogFilter;
    assert_eq!(f.url_patterns(), "/*");
    assert_eq!(f.name(), "AccessLogFilter");
}

#[test]
fn header_errors_keep_their_side() {
    let k: TryIntoHeaderError<&str, i32> = TryIntoHeaderError::key("bad name");
    assert!(matches!(k.kind(), TryIntoHeaderErrorKind::Key("bad name")));
    let v: TryIntoHeaderError<&str, i32> = TryIntoHeaderError::value(3);
    assert!(matches!(v.kind(), TryIntoHeaderErrorKind::Value(3)));
}
