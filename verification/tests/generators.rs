use rust_shop::codegen::{
    call_arguments, classify_param, controller_module_name, extraction_line, field_parse, field_text, form_parser_name,
    handler_call, handler_proxy_name, invalid_message, is_controller_file, is_option_bool_type, is_option_f32_type,
    is_option_string_type, is_string_type, plan_handler, register_route_line, register_routes_fn, required_message,
    route_attribute, Args, FieldParse, HandlerParam, ParamSource, ScalarType,
};

fn param(t: &str, name: &str) -> HandlerParam {
    HandlerParam {
        param_type: t.to_string(),
        param_name: name.to_string(),
        param_option: String::new(),
        param_option_type: String::new(),
    }
}

#[test]
fn type_predicates_compare_whole_names() {
    assert!(is_option_f32_type(&"Option<f32>".to_string()));
    assert!(!is_option_f32_type(&"Option<f64>".to_string()));
    assert!(is_option_bool_type(&"Option<bool>".to_string()));
    assert!(is_option_string_type(&"Option<String>".to_string()));
    assert!(is_string_type(&"String".to_string()));
    assert!(!is_string_type(&"&str".to_string()));
}

#[test]
fn field_parse_ignores_spaces() {
    assert_eq!(field_parse("Option < u32 >"), FieldParse::Optional(ScalarType::U32));
    assert_eq!(field_parse("Option<NaiveDateTime>"), FieldParse::Optional(ScalarType::DateTime));
    assert_eq!(field_parse("Option<String>"), FieldParse::Optional(ScalarType::Text));
    assert_eq!(field_parse("Option<Vec<u8>>"), FieldParse::Unsupported);
    assert_eq!(field_parse("NaiveDateTime"), FieldParse::RequiredDateTime);
    assert_eq!(field_parse("NaiveDate"), FieldParse::RequiredDate);
    assert_eq!(field_parse("String"), FieldParse::RequiredString);
    assert_eq!(field_parse("i64"), FieldParse::RequiredParsed);
}

#[test]
fn form_parser_naming_and_messages() {
    assert_eq!(form_parser_name("Login"), "LoginFormParser");
    assert_eq!(required_message("age"), "field \"age\" required, but not set yet.");
    assert_eq!(invalid_message("age"), "field \"age\" value is invalid.");
}

#[test]
fn missing_required_field_is_an_error() {
    match field_text(FieldParse::RequiredParsed, "age", None) {
        Err(e) => assert_eq!(e, "field \"age\" required, but not set yet."),
        Ok(_) => panic!("a required field must be present"),
    }
    assert_eq!(field_text(FieldParse::Optional(ScalarType::I32), "age", None), Ok(None));
    assert_eq!(field_text(FieldParse::RequiredString, "name", Some("bob")), Ok(Some("bob".to_string())));
}

#[test]
fn route_arguments() {
    let args = Args { vars: vec!["get".to_string(), "/users".to_string()] };
    assert_eq!(args.get_method(), Ok("get".to_string()));
    assert_eq!(args.get_route(), Ok("/users".to_string()));
    let empty = Args { vars: vec![] };
    assert_eq!(empty.get_method(), Err("No HTTP Method was provided".to_string()));
    assert_eq!(empty.get_route(), Err("No Route was provided".to_string()));
}

#[test]
fn handler_proxy_plan() {
    assert_eq!(handler_proxy_name("login"), "login_handler_proxy");
    assert_eq!(classify_param("Json"), Some(ParamSource::Json));
    assert_eq!(classify_param("Body"), None);
    let params = vec![
        param("&mut RequestCtx", "ctx"),
        param("Json", "user"),
        param("&mut SqlCommandExecutor", "sql_exe_with_tran"),
    ];
    let plan = plan_handler(&params);
    assert_eq!(plan.inputs, vec!["ctx".to_string(), "user".to_string(), "&mut sql_exe_with_tran".to_string()]);
    assert_eq!(plan.executor, Some("sql_exe_with_tran".to_string()));
    assert!(plan.with_tran);
    assert_eq!(call_arguments(&plan.inputs), "ctx,user,&mut sql_exe_with_tran");
}

#[test]
fn handler_without_executor_has_no_transaction() {
    let plan = plan_handler(&vec![param("Query", "q")]);
    assert_eq!(plan.executor, None);
    assert!(!plan.with_tran);
}

#[test]
fn proxy_lines() {
    assert_eq!(extraction_line("Json", "user"), "  let user = Json::from_request(ctx).await?;\r\n");
    assert_eq!(
        handler_call("login", "ctx", false),
        "let handler_result = login(ctx).await?;\r\nOk(handler_result.into_response())\r\n"
    );
    assert_eq!(handler_call("login", "ctx", true), "let handler_result = login(ctx).await;\r\n");
}

#[test]
fn controller_scanning() {
    assert!(is_controller_file("/src/controller/user_controller.rs"));
    assert!(!is_controller_file("/src/controller/user.rs"));
    assert_eq!(controller_module_name("user_controller.rs"), "user_controller");
    let (m, u) = route_attribute(&vec!["\"post\"".to_string(), "\"/login\"".to_string()]);
    assert_eq!(m, "post");
    assert_eq!(u, "/login");
}

#[test]
fn route_registration_text() {
    let line = register_route_line("post", "/login", "auth_controller", "auth", "login");
    assert_eq!(
        line,
        "  register_route(\"post\".to_string(),\"/login\".to_string(),auth_controller::auth::login_handler_proxy);\r\n"
    );
    assert_eq!(register_routes_fn(""), None);
    assert_eq!(register_routes_fn("x();"), Some("pub fn register_routes(){\r\nx();\r\n}".to_string()));
}
