use rust_shop::codegen::HandlerParam;
use rust_shop::proxy::{handler_proxy_source, header_option, path_variable_required, EXECUTOR_POOL_LOOKUP, TRANSACTION_TAIL};

fn param(t: &str, name: &str, option: &str, option_type: &str) -> HandlerParam {
    HandlerParam {
        param_type: t.to_string(),
        param_name: name.to_string(),
        param_option: option.to_string(),
        param_option_type: option_type.to_string(),
    }
}

#[test]
fn optional_header_template() {
    let expected = format!(
        "let mut {0}:Header<Option<String>> = Header(None);\r\n
                    let {1} = ctx.headers.get(\"{0}\");\r\n
                    if {1}.is_some() {{\r\n
                        let {1} = {1}.unwrap();\r\n\
                        let {1} = {1}.to_str();
                        if {1}.is_ok() {{\r\n
                            {0} = Header(Some({1}.unwrap().to_string()));\r\n
                        }}\r\n
                    }}\r\n",
        "token",
        "token_tmp_var"
    );
    assert_eq!(header_option("token"), expected);
}

#[test]
fn required_path_variable_template() {
    let expected = format!(
        "let mut {0}:Option<PathVariable<{4}>> = None;\r\n
                     let {1} = ctx.router_params.find(\"{0}\");\r\n
                     if {1}.is_none() {{\r\n
                        return Err(anyhow!(\"{2}\"));\r\n
                     }}else {{\r\n
                         let parse_result = {1}.unwrap().to_string().parse::<{4}>();\r\n
                         if parse_result.is_err() {{\r\n
                            return Err(anyhow!(\"{3}\"));\r\n
                         }}else {{\r\n
                            {0} = Some(PathVariable(parse_result.unwrap()));\r\n
                         }}\r\n
                    }}\r\n
                    let {0} = {0}.unwrap();\r\n",
        "id",
        "id_tmp_var",
        "PathVariable 'id' is None",
        "PathVariable 'id' is invalid",
        "u32"
    );
    assert_eq!(path_variable_required("id", "u32"), expected);
}

#[test]
fn proxy_of_json_handler() {
    let params = vec![param("&mut RequestCtx", "ctx", "", ""), param("Json", "user", "", "")];
    let expected = String::from("pub async fn login_handler_proxy(mut req_ctx:RequestCtx)->anyhow::Result<Response>{\r\n")
        + "let ctx = &mut req_ctx;"
        + "  let user = Json::from_request(ctx).await?;\r\n"
        + "let handler_result = login(ctx,user).await?;\r\n"
        + "Ok(handler_result.into_response())\r\n"
        + "}\r\n";
    assert_eq!(handler_proxy_source("login", &params), expected);
}

#[test]
fn proxy_with_transaction() {
    let params = vec![param("&mut SqlCommandExecutor", "sql_exe_with_tran", "", "")];
    let source = handler_proxy_source("save", &params);
    assert!(source.starts_with("pub async fn save_handler_proxy(mut req_ctx:RequestCtx)->anyhow::Result<Response>{\r\nlet ctx = &mut req_ctx;"));
    assert!(source.contains(EXECUTOR_POOL_LOOKUP));
    assert!(source.contains("let mut sql_exe_with_tran = SqlCommandExecutor::WithTransaction(&mut tran_manager);"));
    assert!(source.contains("let handler_result = save(&mut sql_exe_with_tran).await;\r\n"));
    assert!(source.ends_with(&(String::from(TRANSACTION_TAIL) + "}\r\n")));
}

#[test]
fn proxy_without_transaction() {
    let params = vec![param("&mut SqlCommandExecutor", "sql", "", ""), param("Query", "q", "", "")];
    let source = handler_proxy_source("list", &params);
    assert!(source.contains("let mut sql = SqlCommandExecutor::WithoutTransaction(pool);"));
    assert!(source.contains("  let q = Query::from_request(ctx).await?;\r\n"));
    assert!(source.ends_with("let handler_result = list(&mut sql,q).await?;\r\nOk(handler_result.into_response())\r\n}\r\n"));
}
