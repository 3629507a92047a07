//! The source text of the proxy generated for a route handler: it extracts
//! each parameter from the request, creates the SQL executor the handler asks
//! for, calls the handler and turns its result into the response.

use vstd::prelude::*;
use crate::codegen::{
    all_supported, call_arguments, call_inputs, classify_param, extraction_line, extraction_line_spec, handler_call,
    handler_call_spec, last_executor, param_source, plan_handler, HandlerParam, ParamSource,
};
use crate::text::{concat, join};

verus! {

fn quoted_message(prefix: &str, name: &str, suffix: &str) -> (r: String)
    ensures
        r@ == prefix@ + name@ + suffix@,
{
    let mut r = concat(prefix, name);
    r.append(suffix);
    r
}

/// The statements of a proxy that fetch the database pool for an executor.
pub const EXECUTOR_POOL_LOOKUP: &'static str = "let mut pool_state: Option<&State<Pool<MySql>>> = None;
            unsafe{ pool_state = APP_EXTENSIONS.get(); }
            let pool = pool_state.unwrap().get_ref();
        ";

/// The end of a proxy whose executor runs in a transaction: a failed handler
/// rolls the transaction back, a successful one commits it.
pub const TRANSACTION_TAIL: &'static str = "return if handler_result.is_err() {{
                    println!(\"{}\",\"????????????\");
                    tran_manager.rollback().await?;
                    Err(handler_result.err().unwrap())
                }} else {{
                    println!(\"{}\",\"????????????\");
                    tran_manager.commit().await?;
                    Ok(handler_result.unwrap().into_response())
                }}";

pub open spec fn header_option_spec(name: Seq<char>) -> Seq<char> {
    let tmp = name + "_tmp_var"@;
    "let mut "@
        + name
        + ":Header<Option<String>> = Header(None);\r\n
                    let "@
        + tmp
        + " = ctx.headers.get(\""@
        + name
        + "\");\r\n
                    if "@
        + tmp
        + ".is_some() {\r\n
                        let "@
        + tmp
        + " = "@
        + tmp
        + ".unwrap();\r\n\
                        let "@
        + tmp
        + " = "@
        + tmp
        + ".to_str();
                        if "@
        + tmp
        + ".is_ok() {\r\n
                            "@
        + name
        + " = Header(Some("@
        + tmp
        + ".unwrap().to_string()));\r\n
                        }\r\n
                    }\r\n"@
}

pub fn header_option(name: &str) -> (r: String)
    ensures
        r@ == header_option_spec(name@),
{
    let tmp = concat(name, "_tmp_var");
    let mut r = "let mut ".to_string();
    r.append(name);
    r.append(":Header<Option<String>> = Header(None);\r\n
                    let ");
    r.append(tmp.as_str());
    r.append(" = ctx.headers.get(\"");
    r.append(name);
    r.append("\");\r\n
                    if ");
    r.append(tmp.as_str());
    r.append(".is_some() {\r\n
                        let ");
    r.append(tmp.as_str());
    r.append(" = ");
    r.append(tmp.as_str());
    r.append(".unwrap();\r\n\
                        let ");
    r.append(tmp.as_str());
    r.append(" = ");
    r.append(tmp.as_str());
    r.append(".to_str();
                        if ");
    r.append(tmp.as_str());
    r.append(".is_ok() {\r\n
                            ");
    r.append(name);
    r.append(" = Header(Some(");
    r.append(tmp.as_str());
    r.append(".unwrap().to_string()));\r\n
                        }\r\n
                    }\r\n");
    r
}

pub open spec fn header_required_spec(name: Seq<char>) -> Seq<char> {
    let tmp1 = name + "_tmp_var_1"@;
    let tmp2 = name + "_tmp_var_2"@;
    let msg = "header '"@ + name + "' is None"@;
    "let mut "@
        + tmp1
        + ":Option<Header<String>> = None;  \r\n
                    let "@
        + tmp2
        + " = ctx.headers.get(\""@
        + name
        + "\");          \r\n
                    if "@
        + tmp2
        + ".is_none() {                           \r\n
                        return Err(anyhow!(\""@
        + msg
        + "\"));            \r\n
                    }else{                                       \r\n
                        let "@
        + tmp2
        + " = "@
        + tmp2
        + ".unwrap();                  \r\n\
                        let "@
        + tmp2
        + " = "@
        + tmp2
        + ".to_str();                  \r\n
                        if "@
        + tmp2
        + ".is_err() {                       \r\n
                            return Err(anyhow!(\""@
        + msg
        + "\"));        \r\n
                        }else {                                  \r\n
                            "@
        + tmp1
        + " = Some(Header("@
        + tmp2
        + ".unwrap().to_string()));    \r\n
                        }                                        \r\n
                    }                                            \r\n
                    let "@
        + name
        + ":Header<String> = "@
        + tmp1
        + ".unwrap();       \r\n"@
}

pub fn header_required(name: &str) -> (r: String)
    ensures
        r@ == header_required_spec(name@),
{
    let tmp1 = concat(name, "_tmp_var_1");
    let tmp2 = concat(name, "_tmp_var_2");
    let msg = quoted_message("header '", name, "' is None");
    let mut r = "let mut ".to_string();
    r.append(tmp1.as_str());
    r.append(":Option<Header<String>> = None;  \r\n
                    let ");
    r.append(tmp2.as_str());
    r.append(" = ctx.headers.get(\"");
    r.append(name);
    r.append("\");          \r\n
                    if ");
    r.append(tmp2.as_str());
    r.append(".is_none() {                           \r\n
                        return Err(anyhow!(\"");
    r.append(msg.as_str());
    r.append("\"));            \r\n
                    }else{                                       \r\n
                        let ");
    r.append(tmp2.as_str());
    r.append(" = ");
    r.append(tmp2.as_str());
    r.append(".unwrap();                  \r\n\
                        let ");
    r.append(tmp2.as_str());
    r.append(" = ");
    r.append(tmp2.as_str());
    r.append(".to_str();                  \r\n
                        if ");
    r.append(tmp2.as_str());
    r.append(".is_err() {                       \r\n
                            return Err(anyhow!(\"");
    r.append(msg.as_str());
    r.append("\"));        \r\n
                        }else {                                  \r\n
                            ");
    r.append(tmp1.as_str());
    r.append(" = Some(Header(");
    r.append(tmp2.as_str());
    r.append(".unwrap().to_string()));    \r\n
                        }                                        \r\n
                    }                                            \r\n
                    let ");
    r.append(name);
    r.append(":Header<String> = ");
    r.append(tmp1.as_str());
    r.append(".unwrap();       \r\n");
    r
}

pub open spec fn path_variable_option_spec(name: Seq<char>, option_type: Seq<char>) -> Seq<char> {
    let tmp = name + "_tmp_var"@;
    let msg = "PathVariable '"@ + name + "' is invalid"@;
    "let mut "@
        + name
        + ":PathVariable<Option<"@
        + option_type
        + ">> = PathVariable(None);
                    let "@
        + tmp
        + " = ctx.router_params.find(\""@
        + name
        + "\");
                    if "@
        + tmp
        + ".is_some() {
                        let "@
        + tmp
        + " = "@
        + tmp
        + ".unwrap().to_string();
                        let "@
        + tmp
        + " = "@
        + tmp
        + ".parse::<"@
        + option_type
        + ">();
                        if "@
        + tmp
        + ".is_err(){
                            return Err(anyhow!(\""@
        + msg
        + "\"));
                        }else{
                            "@
        + name
        + " = PathVariable(Some("@
        + tmp
        + ".unwrap()));
                        }
                    }"@
}

pub fn path_variable_option(name: &str, option_type: &str) -> (r: String)
    ensures
        r@ == path_variable_option_spec(name@, option_type@),
{
    let tmp = concat(name, "_tmp_var");
    let msg = quoted_message("PathVariable '", name, "' is invalid");
    let mut r = "let mut ".to_string();
    r.append(name);
    r.append(":PathVariable<Option<");
    r.append(option_type);
    r.append(">> = PathVariable(None);
                    let ");
    r.append(tmp.as_str());
    r.append(" = ctx.router_params.find(\"");
    r.append(name);
    r.append("\");
                    if ");
    r.append(tmp.as_str());
    r.append(".is_some() {
                        let ");
    r.append(tmp.as_str());
    r.append(" = ");
    r.append(tmp.as_str());
    r.append(".unwrap().to_string();
                        let ");
    r.append(tmp.as_str());
    r.append(" = ");
    r.append(tmp.as_str());
    r.append(".parse::<");
    r.append(option_type);
    r.append(">();
                        if ");
    r.append(tmp.as_str());
    r.append(".is_err(){
                            return Err(anyhow!(\"");
    r.append(msg.as_str());
    r.append("\"));
                        }else{
                            ");
    r.append(name);
    r.append(" = PathVariable(Some(");
    r.append(tmp.as_str());
    r.append(".unwrap()));
                        }
                    }");
    r
}

pub open spec fn path_variable_required_spec(name: Seq<char>, option: Seq<char>) -> Seq<char> {
    let tmp = name + "_tmp_var"@;
    let msg_none = "PathVariable '"@ + name + "' is None"@;
    let msg_invalid = "PathVariable '"@ + name + "' is invalid"@;
    "let mut "@
        + name
        + ":Option<PathVariable<"@
        + option
        + ">> = None;\r\n
                     let "@
        + tmp
        + " = ctx.router_params.find(\""@
        + name
        + "\");\r\n
                     if "@
        + tmp
        + ".is_none() {\r\n
                        return Err(anyhow!(\""@
        + msg_none
        + "\"));\r\n
                     }else {\r\n
                         let parse_result = "@
        + tmp
        + ".unwrap().to_string().parse::<"@
        + option
        + ">();\r\n
                         if parse_result.is_err() {\r\n
                            return Err(anyhow!(\""@
        + msg_invalid
        + "\"));\r\n
                         }else {\r\n
                            "@
        + name
        + " = Some(PathVariable(parse_result.unwrap()));\r\n
                         }\r\n
                    }\r\n
                    let "@
        + name
        + " = "@
        + name
        + ".unwrap();\r\n"@
}

pub fn path_variable_required(name: &str, option: &str) -> (r: String)
    ensures
        r@ == path_variable_required_spec(name@, option@),
{
    let tmp = concat(name, "_tmp_var");
    let msg_none = quoted_message("PathVariable '", name, "' is None");
    let msg_invalid = quoted_message("PathVariable '", name, "' is invalid");
    let mut r = "let mut ".to_string();
    r.append(name);
    r.append(":Option<PathVariable<");
    r.append(option);
    r.append(">> = None;\r\n
                     let ");
    r.append(tmp.as_str());
    r.append(" = ctx.router_params.find(\"");
    r.append(name);
    r.append("\");\r\n
                     if ");
    r.append(tmp.as_str());
    r.append(".is_none() {\r\n
                        return Err(anyhow!(\"");
    r.append(msg_none.as_str());
    r.append("\"));\r\n
                     }else {\r\n
                         let parse_result = ");
    r.append(tmp.as_str());
    r.append(".unwrap().to_string().parse::<");
    r.append(option);
    r.append(">();\r\n
                         if parse_result.is_err() {\r\n
                            return Err(anyhow!(\"");
    r.append(msg_invalid.as_str());
    r.append("\"));\r\n
                         }else {\r\n
                            ");
    r.append(name);
    r.append(" = Some(PathVariable(parse_result.unwrap()));\r\n
                         }\r\n
                    }\r\n
                    let ");
    r.append(name);
    r.append(" = ");
    r.append(name);
    r.append(".unwrap();\r\n");
    r
}

pub open spec fn request_param_option_spec(name: Seq<char>, option_type: Seq<char>) -> Seq<char> {
    let tmp = name + "_tmp_var"@;
    let msg = "RequestParam '"@ + name + "' is invalid"@;
    "let mut "@
        + name
        + ":RequestParam<Option<"@
        + option_type
        + ">> = RequestParam(None);
                    let "@
        + tmp
        + " = ctx.query_params.get(\""@
        + name
        + "\");
                    if "@
        + tmp
        + ".is_some() {
                        let "@
        + tmp
        + " = "@
        + tmp
        + ".unwrap().to_string();
                        let "@
        + tmp
        + " = "@
        + tmp
        + ".parse::<"@
        + option_type
        + ">();
                        if "@
        + tmp
        + ".is_err(){
                            return Err(anyhow!(\""@
        + msg
        + "\"));
                        }else{
                            "@
        + name
        + " = RequestParam(Some("@
        + tmp
        + ".unwrap()));
                        }
                    }"@
}

pub fn request_param_option(name: &str, option_type: &str) -> (r: String)
    ensures
        r@ == request_param_option_spec(name@, option_type@),
{
    let tmp = concat(name, "_tmp_var");
    let msg = quoted_message("RequestParam '", name, "' is invalid");
    let mut r = "let mut ".to_string();
    r.append(name);
    r.append(":RequestParam<Option<");
    r.append(option_type);
    r.append(">> = RequestParam(None);
                    let ");
    r.append(tmp.as_str());
    r.append(" = ctx.query_params.get(\"");
    r.append(name);
    r.append("\");
                    if ");
    r.append(tmp.as_str());
    r.append(".is_some() {
                        let ");
    r.append(tmp.as_str());
    r.append(" = ");
    r.append(tmp.as_str());
    r.append(".unwrap().to_string();
                        let ");
    r.append(tmp.as_str());
    r.append(" = ");
    r.append(tmp.as_str());
    r.append(".parse::<");
    r.append(option_type);
    r.append(">();
                        if ");
    r.append(tmp.as_str());
    r.append(".is_err(){
                            return Err(anyhow!(\"");
    r.append(msg.as_str());
    r.append("\"));
                        }else{
                            ");
    r.append(name);
    r.append(" = RequestParam(Some(");
    r.append(tmp.as_str());
    r.append(".unwrap()));
                        }
                    }");
    r
}

pub open spec fn request_param_required_spec(name: Seq<char>, option: Seq<char>) -> Seq<char> {
    let tmp = name + "_tmp_var"@;
    let msg_none = "RequestParam '"@ + name + "' is None"@;
    let msg_invalid = "RequestParam '"@ + name + "' is invalid"@;
    "let mut "@
        + name
        + ":Option<RequestParam<"@
        + option
        + ">> = None;\r\n
                    let "@
        + tmp
        + " = ctx.query_params.get(\""@
        + name
        + "\");\r\n
                    if "@
        + tmp
        + ".is_none() {\r\n
                        return Err(anyhow!(\""@
        + msg_none
        + "\"));\r\n
                    }else {\r\n
                        let parse_result = "@
        + tmp
        + ".unwrap().to_string().parse::<"@
        + option
        + ">();\r\n
                        if parse_result.is_err() {\r\n
                            return Err(anyhow!(\""@
        + msg_invalid
        + "\"));\r\n
                        }else {\r\n
                            "@
        + name
        + " = Some(RequestParam(parse_result.unwrap()));\r\n
                        }\r\n
                    }\r\n
                    let "@
        + name
        + " = "@
        + name
        + ".unwrap();\r\n"@
}

pub fn request_param_required(name: &str, option: &str) -> (r: String)
    ensures
        r@ == request_param_required_spec(name@, option@),
{
    let tmp = concat(name, "_tmp_var");
    let msg_none = quoted_message("RequestParam '", name, "' is None");
    let msg_invalid = quoted_message("RequestParam '", name, "' is invalid");
    let mut r = "let mut ".to_string();
    r.append(name);
    r.append(":Option<RequestParam<");
    r.append(option);
    r.append(">> = None;\r\n
                    let ");
    r.append(tmp.as_str());
    r.append(" = ctx.query_params.get(\"");
    r.append(name);
    r.append("\");\r\n
                    if ");
    r.append(tmp.as_str());
    r.append(".is_none() {\r\n
                        return Err(anyhow!(\"");
    r.append(msg_none.as_str());
    r.append("\"));\r\n
                    }else {\r\n
                        let parse_result = ");
    r.append(tmp.as_str());
    r.append(".unwrap().to_string().parse::<");
    r.append(option);
    r.append(">();\r\n
                        if parse_result.is_err() {\r\n
                            return Err(anyhow!(\"");
    r.append(msg_invalid.as_str());
    r.append("\"));\r\n
                        }else {\r\n
                            ");
    r.append(name);
    r.append(" = Some(RequestParam(parse_result.unwrap()));\r\n
                        }\r\n
                    }\r\n
                    let ");
    r.append(name);
    r.append(" = ");
    r.append(name);
    r.append(".unwrap();\r\n");
    r
}

pub open spec fn executor_with_transaction_spec(name: Seq<char>) -> Seq<char> {
    "
            let tran = pool.begin().await?;
            let mut tran_manager = TransactionManager::new(tran);
            let mut "@
        + name
        + " = SqlCommandExecutor::WithTransaction(&mut tran_manager);"@
}

pub fn executor_with_transaction(name: &str) -> (r: String)
    ensures
        r@ == executor_with_transaction_spec(name@),
{
    let mut r = "
            let tran = pool.begin().await?;
            let mut tran_manager = TransactionManager::new(tran);
            let mut ".to_string();
    r.append(name);
    r.append(" = SqlCommandExecutor::WithTransaction(&mut tran_manager);");
    r
}

pub open spec fn executor_without_transaction_spec(name: Seq<char>) -> Seq<char> {
    "
            let mut "@
        + name
        + " = SqlCommandExecutor::WithoutTransaction(pool);"@
}

pub fn executor_without_transaction(name: &str) -> (r: String)
    ensures
        r@ == executor_without_transaction_spec(name@),
{
    let mut r = "
            let mut ".to_string();
    r.append(name);
    r.append(" = SqlCommandExecutor::WithoutTransaction(pool);");
    r
}


/// The extraction text of one parameter: none for the executor and the
/// context; a `from_request` call for `Json`, `Form`, `Query` and
/// `Multipart`; and for `Header`, `PathVariable` and `RequestParam` the
/// optional or the required form, as the parameter's value is an `Option`
/// or not.
pub open spec fn param_extraction_spec(p: HandlerParam) -> Seq<char> {
    let name = p.param_name@;
    let optional = p.param_option@ == "Option"@;
    match param_source(p.param_type@) {
        Some(ParamSource::Json) => extraction_line_spec("Json"@, name),
        Some(ParamSource::Form) => extraction_line_spec("Form"@, name),
        Some(ParamSource::Query) => extraction_line_spec("Query"@, name),
        Some(ParamSource::Multipart) => extraction_line_spec("Multipart"@, name),
        Some(ParamSource::Header) => if optional {
            header_option_spec(name)
        } else {
            header_required_spec(name)
        },
        Some(ParamSource::PathVariable) => if optional {
            path_variable_option_spec(name, p.param_option_type@)
        } else {
            path_variable_required_spec(name, p.param_option@)
        },
        Some(ParamSource::RequestParam) => if optional {
            request_param_option_spec(name, p.param_option_type@)
        } else {
            request_param_required_spec(name, p.param_option@)
        },
        _ => Seq::empty(),
    }
}

/// The extraction text of a parameter.
pub fn param_extraction(p: &HandlerParam) -> (r: String)
    ensures
        r@ == param_extraction_spec(*p),
{
    let name = p.param_name.as_str();
    let optional = crate::text::str_eq(p.param_option.as_str(), "Option");
    match classify_param(p.param_type.as_str()) {
        Some(ParamSource::Json) => extraction_line("Json", name),
        Some(ParamSource::Form) => extraction_line("Form", name),
        Some(ParamSource::Query) => extraction_line("Query", name),
        Some(ParamSource::Multipart) => extraction_line("Multipart", name),
        Some(ParamSource::Header) => if optional {
            header_option(name)
        } else {
            header_required(name)
        },
        Some(ParamSource::PathVariable) => if optional {
            path_variable_option(name, p.param_option_type.as_str())
        } else {
            path_variable_required(name, p.param_option.as_str())
        },
        Some(ParamSource::RequestParam) => if optional {
            request_param_option(name, p.param_option_type.as_str())
        } else {
            request_param_required(name, p.param_option.as_str())
        },
        _ => String::new(),
    }
}

/// The extraction texts of the parameters, in order.
pub open spec fn proxy_body_spec(params: Seq<HandlerParam>) -> Seq<char>
    decreases params.len(),
{
    if params.len() == 0 {
        Seq::empty()
    } else {
        proxy_body_spec(params.drop_last()) + param_extraction_spec(params.last())
    }
}

/// The statements that create the executor parameter named `executor`, if any.
pub open spec fn executor_injection_spec(executor: Option<Seq<char>>) -> Seq<char> {
    match executor {
        None => Seq::empty(),
        Some(n) => if n == "sql_exe_with_tran"@ {
            EXECUTOR_POOL_LOOKUP@ + executor_with_transaction_spec(n)
        } else {
            EXECUTOR_POOL_LOOKUP@ + executor_without_transaction_spec(n)
        },
    }
}

/// The source text of the proxy of handler `fn_name` with these parameters.
pub open spec fn handler_proxy_spec(fn_name: Seq<char>, params: Seq<HandlerParam>) -> Seq<char> {
    let executor = last_executor(params);
    let with_tran = executor == Some("sql_exe_with_tran"@);
    "pub async fn "@ + fn_name + "_handler_proxy"@ + "(mut req_ctx:RequestCtx)->anyhow::Result<Response>{\r\n"@
        + "let ctx = &mut req_ctx;"@ + executor_injection_spec(executor) + proxy_body_spec(params)
        + handler_call_spec(fn_name, join(call_inputs(params), ","@), with_tran)
        + (if with_tran { TRANSACTION_TAIL@ } else { Seq::empty() }) + "}\r\n"@
}

/// The source text of the proxy generated for handler `fn_name`. A handler
/// has at least one parameter, each written with a supported extractor.
pub fn handler_proxy_source(fn_name: &str, params: &Vec<HandlerParam>) -> (r: String)
    requires
        params@.len() > 0,
        all_supported(params@),
    ensures
        r@ == handler_proxy_spec(fn_name@, params@),
{
    let plan = plan_handler(params);
    let mut body = String::new();
    let mut i: usize = 0;
    while i < params.len()
        invariant
            i <= params@.len(),
            body@ == proxy_body_spec(params@.take(i as int)),
        decreases params@.len() - i,
    {
        let piece = param_extraction(&params[i]);
        body.append(piece.as_str());
        assert(params@.take(i + 1).drop_last() =~= params@.take(i as int));
        i = i + 1;
    }
    assert(params@.take(i as int) =~= params@);
    let mut injection = String::new();
    match &plan.executor {
        Some(n) => {
            injection.append(EXECUTOR_POOL_LOOKUP);
            if plan.with_tran {
                let t = executor_with_transaction(n.as_str());
                injection.append(t.as_str());
            } else {
                let t = executor_without_transaction(n.as_str());
                injection.append(t.as_str());
            }
        },
        None => {},
    }
    let arguments = call_arguments(&plan.inputs);
    let call = handler_call(fn_name, arguments.as_str(), plan.with_tran);
    let mut r = concat("pub async fn ", fn_name);
    r.append("_handler_proxy");
    r.append("(mut req_ctx:RequestCtx)->anyhow::Result<Response>{\r\n");
    r.append("let ctx = &mut req_ctx;");
    r.append(injection.as_str());
    r.append(body.as_str());
    r.append(call.as_str());
    if plan.with_tran {
        r.append(TRANSACTION_TAIL);
    }
    r.append("}\r\n");
    r
}

/// A parameter written with one of the body or query extractors (`Json`,
/// `Form`, `Query`, `Multipart`) is extracted with that same extractor: the
/// proxy binds the parameter's name to the `from_request` of the type the
/// parameter was written with.
pub proof fn law_extractor_is_the_written_one(p: HandlerParam)
    requires
        p.param_type@ == "Json"@ || p.param_type@ == "Form"@ || p.param_type@ == "Query"@
            || p.param_type@ == "Multipart"@,
    ensures
        param_extraction_spec(p) == "  let "@ + p.param_name@ + " = "@ + p.param_type@
            + "::from_request(ctx).await?;\r\n"@,
{
    reveal_strlit("&mut SqlCommandExecutor");
    reveal_strlit("&mut RequestCtx");
    reveal_strlit("Json");
    reveal_strlit("Form");
    reveal_strlit("Query");
    reveal_strlit("Multipart");
    let t = p.param_type@;
    assert("&mut SqlCommandExecutor"@.len() == 23);
    assert("&mut RequestCtx"@.len() == 15);
    assert("Json"@.len() == 4);
    assert("Form"@.len() == 4);
    assert("Query"@.len() == 5);
    assert("Multipart"@.len() == 9);
    if t == "Json"@ {
        assert(t != "&mut SqlCommandExecutor"@);
        assert(t != "&mut RequestCtx"@);
    } else if t == "Form"@ {
        assert(t != "&mut SqlCommandExecutor"@);
        assert(t != "&mut RequestCtx"@);
        assert(t[0] != "Json"@[0]);
    } else if t == "Query"@ {
        assert(t != "&mut SqlCommandExecutor"@);
        assert(t != "&mut RequestCtx"@);
        assert(t != "Json"@);
        assert(t != "Form"@);
    } else {
        assert(t != "&mut SqlCommandExecutor"@);
        assert(t != "&mut RequestCtx"@);
        assert(t != "Json"@);
        assert(t != "Form"@);
        assert(t != "Query"@);
        reveal_strlit("Header");
        reveal_strlit("PathVariable");
        reveal_strlit("RequestParam");
        assert(t != "Header"@);
        assert(t[0] != "PathVariable"@[0]);
        assert(t[0] != "RequestParam"@[0]);
    }
}

} // verus!
