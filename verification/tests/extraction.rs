use rust_shop::extract::{
    form_param, form_source, has_content_type, json_content_type, json_rejection, json_request_check,
    parse_form_params, str_eq_ignore_ascii_case, ExtractError, FormSource, JsonErrorCategory,
};

#[test]
fn content_type_prefix() {
    assert!(has_content_type(Some("application/x-www-form-urlencoded; charset=utf-8"), "application/x-www-form-urlencoded"));
    assert!(!has_content_type(Some("text/plain"), "application/x-www-form-urlencoded"));
    assert!(!has_content_type(None, "text/plain"));
}

#[test]
fn json_content_types() {
    assert!(json_content_type(Some("application/json")));
    assert!(json_content_type(Some("application/json; charset=utf-8")));
    assert!(json_content_type(Some("application/vnd.api+json")));
    assert!(!json_content_type(Some("text/html")));
    assert!(!json_content_type(Some("not a mime")));
    assert!(!json_content_type(None));
}

#[test]
fn ascii_case_insensitive_equality() {
    assert!(str_eq_ignore_ascii_case("JSON", "json"));
    assert!(!str_eq_ignore_ascii_case("json", "jsonx"));
}

#[test]
fn form_params_last_value_wins() {
    let params = parse_form_params(b"a=1&b=two%20words&a=3&c=x+y");
    assert_eq!(params.len(), 4);
    assert_eq!(form_param(&params, "a"), Some(&"3".to_string()));
    assert_eq!(form_param(&params, "b"), Some(&"two words".to_string()));
    assert_eq!(form_param(&params, "c"), Some(&"x y".to_string()));
    assert_eq!(form_param(&params, "d"), None);
}

#[test]
fn form_source_by_method_and_content_type() {
    assert_eq!(form_source(true, None).ok(), Some(FormSource::QueryString));
    assert_eq!(form_source(false, Some("application/x-www-form-urlencoded")).ok(), Some(FormSource::Body));
    assert!(matches!(form_source(false, Some("application/json")), Err(ExtractError::InvalidFormContentType)));
    assert!(matches!(form_source(false, None), Err(ExtractError::InvalidFormContentType)));
}

#[test]
fn json_rejections() {
    match json_rejection(JsonErrorCategory::Data, "missing field".to_string()) {
        ExtractError::JsonDataError(m) => assert_eq!(m, "missing field"),
        _ => panic!("a data error"),
    }
    assert!(matches!(json_rejection(JsonErrorCategory::Syntax, String::new()), ExtractError::JsonSyntaxError));
    assert!(matches!(json_rejection(JsonErrorCategory::Eof, String::new()), ExtractError::JsonSyntaxError));
    assert!(matches!(json_rejection(JsonErrorCategory::Io, String::new()), ExtractError::JsonSyntaxError));
    assert!(json_request_check(Some("application/json")).is_ok());
    assert!(matches!(json_request_check(Some("text/plain")), Err(ExtractError::MissingJsonContentType)));
}

#[test]
fn extract_error_messages() {
    assert_eq!(ExtractError::InvalidFormContentType.message(), "无效的form content-type");
    assert_eq!(ExtractError::MissingJsonContentType.message(), "未发现Json数据");
    assert_eq!(ExtractError::JsonSyntaxError.message(), "Json格式无效");
    assert_eq!(ExtractError::Unknown.message(), "未知错误");
    assert_eq!(ExtractError::JsonIoError("x".to_string()).message(), "Json IO错误：x");
    assert_eq!(ExtractError::JsonDataError("x".to_string()).message(), "Json对象类型映射错误：x");
    assert_eq!(ExtractError::FailedToDeserializeQueryString("q".to_string()).message(), "反系列化Url请求参数为对象失败：q");
    assert_eq!(ExtractError::FailedToDeserializeFormData("f".to_string()).message(), "反系列化Form参数为对象失败：f");
    assert_eq!(ExtractError::Unknown.status(), 400);
}

#[test]
fn json_failure_answer() {
    let r = rust_shop::extract::json_failure_result();
    assert_eq!(r.code(), rust_shop::endpoint::EndpointResultCode::ClientError);
    assert_eq!(r.msg(), "无效的JSON数据");
    assert_eq!(r.payload(), &Some(String::new()));
}
