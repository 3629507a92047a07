//! The decisions behind the code generators of the framework: how a form
//! field of a given type is read from the request, how the parameters of a
//! route handler are supplied by its generated proxy, and how the routes found
//! in controller files are registered.

use vstd::prelude::*;
use crate::text::{concat, ends_with, is_suffix, join, join_strings, remove_all, remove_all_spec, starts_with, is_prefix,
    str_eq, views};

verus! {

pub fn is_option_f32_type(ty_text: &String) -> (r: bool)
    ensures
        r == (ty_text@ == "Option<f32>"@),
{
    str_eq(ty_text.as_str(), "Option<f32>")
}

pub fn is_option_f64_type(ty_text: &String) -> (r: bool)
    ensures
        r == (ty_text@ == "Option<f64>"@),
{
    str_eq(ty_text.as_str(), "Option<f64>")
}

pub fn is_option_i8_type(ty_text: &String) -> (r: bool)
    ensures
        r == (ty_text@ == "Option<i8>"@),
{
    str_eq(ty_text.as_str(), "Option<i8>")
}

pub fn is_option_u8_type(ty_text: &String) -> (r: bool)
    ensures
        r == (ty_text@ == "Option<u8>"@),
{
    str_eq(ty_text.as_str(), "Option<u8>")
}

pub fn is_option_i16_type(ty_text: &String) -> (r: bool)
    ensures
        r == (ty_text@ == "Option<i16>"@),
{
    str_eq(ty_text.as_str(), "Option<i16>")
}

pub fn is_option_u16_type(ty_text: &String) -> (r: bool)
    ensures
        r == (ty_text@ == "Option<u16>"@),
{
    str_eq(ty_text.as_str(), "Option<u16>")
}

pub fn is_option_i32_type(ty_text: &String) -> (r: bool)
    ensures
        r == (ty_text@ == "Option<i32>"@),
{
    str_eq(ty_text.as_str(), "Option<i32>")
}

pub fn is_option_u32_type(ty_text: &String) -> (r: bool)
    ensures
        r == (ty_text@ == "Option<u32>"@),
{
    str_eq(ty_text.as_str(), "Option<u32>")
}

pub fn is_option_i64_type(ty_text: &String) -> (r: bool)
    ensures
        r == (ty_text@ == "Option<i64>"@),
{
    str_eq(ty_text.as_str(), "Option<i64>")
}

pub fn is_option_u64_type(ty_text: &String) -> (r: bool)
    ensures
        r == (ty_text@ == "Option<u64>"@),
{
    str_eq(ty_text.as_str(), "Option<u64>")
}

pub fn is_option_i128_type(ty_text: &String) -> (r: bool)
    ensures
        r == (ty_text@ == "Option<i128>"@),
{
    str_eq(ty_text.as_str(), "Option<i128>")
}

pub fn is_option_u128_type(ty_text: &String) -> (r: bool)
    ensures
        r == (ty_text@ == "Option<u128>"@),
{
    str_eq(ty_text.as_str(), "Option<u128>")
}

pub fn is_option_isize_type(ty_text: &String) -> (r: bool)
    ensures
        r == (ty_text@ == "Option<isize>"@),
{
    str_eq(ty_text.as_str(), "Option<isize>")
}

pub fn is_option_usize_type(ty_text: &String) -> (r: bool)
    ensures
        r == (ty_text@ == "Option<usize>"@),
{
    str_eq(ty_text.as_str(), "Option<usize>")
}

pub fn is_option_bool_type(ty_text: &String) -> (r: bool)
    ensures
        r == (ty_text@ == "Option<bool>"@),
{
    str_eq(ty_text.as_str(), "Option<bool>")
}

pub fn is_option_datetime_type(ty_text: &String) -> (r: bool)
    ensures
        r == (ty_text@ == "Option<NaiveDateTime>"@),
{
    str_eq(ty_text.as_str(), "Option<NaiveDateTime>")
}

pub fn is_option_date_type(ty_text: &String) -> (r: bool)
    ensures
        r == (ty_text@ == "Option<NaiveDate>"@),
{
    str_eq(ty_text.as_str(), "Option<NaiveDate>")
}

pub fn is_option_string_type(ty_text: &String) -> (r: bool)
    ensures
        r == (ty_text@ == "Option<String>"@),
{
    str_eq(ty_text.as_str(), "Option<String>")
}

pub fn is_datetime_type(ty_text: &String) -> (r: bool)
    ensures
        r == (ty_text@ == "NaiveDateTime"@),
{
    str_eq(ty_text.as_str(), "NaiveDateTime")
}

pub fn is_string_type(ty_text: &String) -> (r: bool)
    ensures
        r == (ty_text@ == "String"@),
{
    str_eq(ty_text.as_str(), "String")
}

pub fn is_date_type(ty_text: &String) -> (r: bool)
    ensures
        r == (ty_text@ == "NaiveDate"@),
{
    str_eq(ty_text.as_str(), "NaiveDate")
}

/// The value types that an optional form field may have.
#[derive(PartialEq, Eq, Structural, Clone, Copy, Debug)]
pub enum ScalarType {
    F32,
    F64,
    I8,
    U8,
    I16,
    U16,
    I32,
    U32,
    I64,
    U64,
    I128,
    U128,
    Isize,
    Usize,
    Bool,
    DateTime,
    Date,
    Text,
}

/// How the generated form parser reads a field.
#[derive(PartialEq, Eq, Structural, Clone, Copy, Debug)]
pub enum FieldParse {
    /// `Option<T>` of a supported type: `None` when the parameter is absent or
    /// does not convert.
    Optional(ScalarType),
    /// `Option<T>` of another type: no code is generated for the field.
    Unsupported,
    /// `NaiveDateTime`: required, converted with `%Y-%m-%d %H:%M:%S`.
    RequiredDateTime,
    /// `NaiveDate`: required, converted with `%Y-%m-%d`.
    RequiredDate,
    /// `String`: required, taken as it is.
    RequiredString,
    /// Any other type: required, converted with its `FromStr`.
    RequiredParsed,
}

/// The optional value type that a type name (without spaces) stands for.
pub open spec fn optional_scalar(t: Seq<char>) -> Option<ScalarType> {
    if t == "Option<f32>"@ {
        Some(ScalarType::F32)
    } else if t == "Option<f64>"@ {
        Some(ScalarType::F64)
    } else if t == "Option<i8>"@ {
        Some(ScalarType::I8)
    } else if t == "Option<u8>"@ {
        Some(ScalarType::U8)
    } else if t == "Option<i16>"@ {
        Some(ScalarType::I16)
    } else if t == "Option<u16>"@ {
        Some(ScalarType::U16)
    } else if t == "Option<i32>"@ {
        Some(ScalarType::I32)
    } else if t == "Option<u32>"@ {
        Some(ScalarType::U32)
    } else if t == "Option<i64>"@ {
        Some(ScalarType::I64)
    } else if t == "Option<u64>"@ {
        Some(ScalarType::U64)
    } else if t == "Option<i128>"@ {
        Some(ScalarType::I128)
    } else if t == "Option<u128>"@ {
        Some(ScalarType::U128)
    } else if t == "Option<isize>"@ {
        Some(ScalarType::Isize)
    } else if t == "Option<usize>"@ {
        Some(ScalarType::Usize)
    } else if t == "Option<bool>"@ {
        Some(ScalarType::Bool)
    } else if t == "Option<NaiveDateTime>"@ {
        Some(ScalarType::DateTime)
    } else if t == "Option<NaiveDate>"@ {
        Some(ScalarType::Date)
    } else if t == "Option<String>"@ {
        Some(ScalarType::Text)
    } else {
        None
    }
}

/// How a field whose type reads `t` once its spaces are removed is parsed.
pub open spec fn field_parse_spec(t: Seq<char>) -> FieldParse {
    if is_prefix("Option<"@, t) {
        match optional_scalar(t) {
            Some(s) => FieldParse::Optional(s),
            None => FieldParse::Unsupported,
        }
    } else if t == "NaiveDateTime"@ {
        FieldParse::RequiredDateTime
    } else if t == "NaiveDate"@ {
        FieldParse::RequiredDate
    } else if t != "String"@ {
        FieldParse::RequiredParsed
    } else {
        FieldParse::RequiredString
    }
}

fn optional_scalar_of(ty_text: &String) -> (r: Option<ScalarType>)
    ensures
        r == optional_scalar(ty_text@),
{
    if is_option_f32_type(ty_text) {
        Some(ScalarType::F32)
    } else if is_option_f64_type(ty_text) {
        Some(ScalarType::F64)
    } else if is_option_i8_type(ty_text) {
        Some(ScalarType::I8)
    } else if is_option_u8_type(ty_text) {
        Some(ScalarType::U8)
    } else if is_option_i16_type(ty_text) {
        Some(ScalarType::I16)
    } else if is_option_u16_type(ty_text) {
        Some(ScalarType::U16)
    } else if is_option_i32_type(ty_text) {
        Some(ScalarType::I32)
    } else if is_option_u32_type(ty_text) {
        Some(ScalarType::U32)
    } else if is_option_i64_type(ty_text) {
        Some(ScalarType::I64)
    } else if is_option_u64_type(ty_text) {
        Some(ScalarType::U64)
    } else if is_option_i128_type(ty_text) {
        Some(ScalarType::I128)
    } else if is_option_u128_type(ty_text) {
        Some(ScalarType::U128)
    } else if is_option_isize_type(ty_text) {
        Some(ScalarType::Isize)
    } else if is_option_usize_type(ty_text) {
        Some(ScalarType::Usize)
    } else if is_option_bool_type(ty_text) {
        Some(ScalarType::Bool)
    } else if is_option_datetime_type(ty_text) {
        Some(ScalarType::DateTime)
    } else if is_option_date_type(ty_text) {
        Some(ScalarType::Date)
    } else if is_option_string_type(ty_text) {
        Some(ScalarType::Text)
    } else {
        None
    }
}

/// How the form parser generated for a struct reads a field of the type
/// written `ty` (its spaces are ignored).
pub fn field_parse(ty: &str) -> (r: FieldParse)
    ensures
        r == field_parse_spec(remove_all_spec(ty@, " "@)),
{
    let ty_text = remove_all(ty, " ");
    if starts_with(ty_text.as_str(), "Option<") {
        match optional_scalar_of(&ty_text) {
            Some(s) => FieldParse::Optional(s),
            None => FieldParse::Unsupported,
        }
    } else if is_datetime_type(&ty_text) {
        FieldParse::RequiredDateTime
    } else if is_date_type(&ty_text) {
        FieldParse::RequiredDate
    } else if !is_string_type(&ty_text) {
        FieldParse::RequiredParsed
    } else {
        FieldParse::RequiredString
    }
}

/// The name of the form parser generated for struct `ident`.
pub fn form_parser_name(ident: &str) -> (r: String)
    ensures
        r@ == ident@ + "FormParser"@,
{
    concat(ident, "FormParser")
}

/// The error of a required field that the request did not set.
pub open spec fn required_message_spec(field: Seq<char>) -> Seq<char> {
    "field \""@ + field + "\" required, but not set yet."@
}

/// The error of a required field whose value does not convert.
pub open spec fn invalid_message_spec(field: Seq<char>) -> Seq<char> {
    "field \""@ + field + "\" value is invalid."@
}

pub fn required_message(field: &str) -> (r: String)
    ensures
        r@ == required_message_spec(field@),
{
    let mut r = concat("field \"", field);
    r.append("\" required, but not set yet.");
    r
}

pub fn invalid_message(field: &str) -> (r: String)
    ensures
        r@ == invalid_message_spec(field@),
{
    let mut r = concat("field \"", field);
    r.append("\" value is invalid.");
    r
}

/// Whether a field read this way must be present in the request.
pub open spec fn is_required(kind: FieldParse) -> bool {
    kind is RequiredDateTime || kind is RequiredDate || kind is RequiredString || kind is RequiredParsed
}

/// The text the generated parser goes on with for field `name` read as `kind`,
/// given the request's parameter (`None` when absent): a required field that
/// is absent is an error; otherwise the parameter, if any, is passed on for
/// conversion (an optional field without one stays `None`).
pub fn field_text(kind: FieldParse, name: &str, param: Option<&str>) -> (r: Result<Option<String>, String>)
    ensures
        is_required(kind) && param is None ==> (r matches Err(e) && e@ == required_message_spec(name@)),
        !(is_required(kind) && param is None) ==> (r matches Ok(t) && match param {
            Some(p) => t matches Some(x) && x@ == p@,
            None => t is None,
        }),
{
    let required = match kind {
        FieldParse::RequiredDateTime | FieldParse::RequiredDate | FieldParse::RequiredString
        | FieldParse::RequiredParsed => true,
        _ => false,
    };
    match param {
        Some(p) => Ok(Some(p.to_string())),
        None => {
            if required {
                Err(required_message(name))
            } else {
                Ok(None)
            }
        },
    }
}

/// The suffix of the name of a handler's generated proxy.
pub const HANDLER_PROXY_FN_SUFFIX: &'static str = "_handler_proxy";

/// The name of the proxy generated for handler `fn_name`.
pub fn handler_proxy_name(fn_name: &str) -> (r: String)
    ensures
        r@ == fn_name@ + "_handler_proxy"@,
{
    concat(fn_name, HANDLER_PROXY_FN_SUFFIX)
}

/// The arguments of a `#[route(method, path)]` attribute, as written.
pub struct Args {
    pub vars: Vec<String>,
}

impl Args {
    /// The HTTP method: the first argument.
    pub fn get_method(&self) -> (r: Result<String, String>)
        ensures
            self.vars@.len() > 0 ==> (r matches Ok(m) && m@ == self.vars@[0]@),
            self.vars@.len() == 0 ==> (r matches Err(e) && e@ == "No HTTP Method was provided"@),
    {
        if self.vars.len() > 0 {
            Ok(self.vars[0].clone())
        } else {
            Err("No HTTP Method was provided".to_string())
        }
    }

    /// The route path: the second argument.
    pub fn get_route(&self) -> (r: Result<String, String>)
        ensures
            self.vars@.len() > 1 ==> (r matches Ok(m) && m@ == self.vars@[1]@),
            self.vars@.len() <= 1 ==> (r matches Err(e) && e@ == "No Route was provided"@),
    {
        if self.vars.len() > 1 {
            Ok(self.vars[1].clone())
        } else {
            Err("No Route was provided".to_string())
        }
    }
}

/// A parameter of a route handler: the extractor it is written with (such as
/// `Json`, `RequestParam` or `&mut RequestCtx`), its name, the outer type of
/// its value when that is generic (`Option`), and the type inside it.
pub struct HandlerParam {
    pub param_type: String,
    pub param_name: String,
    pub param_option: String,
    pub param_option_type: String,
}

/// Where the generated proxy takes a handler parameter from.
#[derive(PartialEq, Eq, Structural, Clone, Copy, Debug)]
pub enum ParamSource {
    /// A SQL command executor the proxy creates (`&mut SqlCommandExecutor`).
    Executor,
    /// The request context itself (`&mut RequestCtx`).
    Context,
    Json,
    Form,
    Query,
    Header,
    PathVariable,
    RequestParam,
    Multipart,
}

/// The source of a parameter written with extractor `t`, if it is a supported one.
pub open spec fn param_source(t: Seq<char>) -> Option<ParamSource> {
    if t == "&mut SqlCommandExecutor"@ {
        Some(ParamSource::Executor)
    } else if t == "&mut RequestCtx"@ {
        Some(ParamSource::Context)
    } else if t == "Json"@ {
        Some(ParamSource::Json)
    } else if t == "Form"@ {
        Some(ParamSource::Form)
    } else if t == "Query"@ {
        Some(ParamSource::Query)
    } else if t == "Header"@ {
        Some(ParamSource::Header)
    } else if t == "PathVariable"@ {
        Some(ParamSource::PathVariable)
    } else if t == "RequestParam"@ {
        Some(ParamSource::RequestParam)
    } else if t == "Multipart"@ {
        Some(ParamSource::Multipart)
    } else {
        None
    }
}

/// The source of a parameter written with extractor `param_type`.
pub fn classify_param(param_type: &str) -> (r: Option<ParamSource>)
    ensures
        r == param_source(param_type@),
{
    if str_eq(param_type, "&mut SqlCommandExecutor") {
        Some(ParamSource::Executor)
    } else if str_eq(param_type, "&mut RequestCtx") {
        Some(ParamSource::Context)
    } else if str_eq(param_type, "Json") {
        Some(ParamSource::Json)
    } else if str_eq(param_type, "Form") {
        Some(ParamSource::Form)
    } else if str_eq(param_type, "Query") {
        Some(ParamSource::Query)
    } else if str_eq(param_type, "Header") {
        Some(ParamSource::Header)
    } else if str_eq(param_type, "PathVariable") {
        Some(ParamSource::PathVariable)
    } else if str_eq(param_type, "RequestParam") {
        Some(ParamSource::RequestParam)
    } else if str_eq(param_type, "Multipart") {
        Some(ParamSource::Multipart)
    } else {
        None
    }
}

/// The expression the proxy passes to the handler for a parameter: a
/// reference to the executor it created, the context, or the extracted value.
pub open spec fn call_input(source: ParamSource, name: Seq<char>) -> Seq<char> {
    match source {
        ParamSource::Executor => "&mut "@ + name,
        ParamSource::Context => "ctx"@,
        _ => name,
    }
}

/// Whether every parameter is written with a supported extractor.
pub open spec fn all_supported(params: Seq<HandlerParam>) -> bool {
    forall|i: int| 0 <= i < params.len() ==> (#[trigger] param_source(params[i].param_type@)) is Some
}

/// The arguments the proxy passes to the handler, in order.
pub open spec fn call_inputs(params: Seq<HandlerParam>) -> Seq<Seq<char>> {
    Seq::new(params.len(), |i: int| call_input(param_source(params[i].param_type@)->0, params[i].param_name@))
}

/// The name of the last executor parameter, if any.
pub open spec fn last_executor(params: Seq<HandlerParam>) -> Option<Seq<char>>
    decreases params.len(),
{
    if params.len() == 0 {
        None
    } else if params.last().param_type@ == "&mut SqlCommandExecutor"@ {
        Some(params.last().param_name@)
    } else {
        last_executor(params.drop_last())
    }
}

/// What the proxy of a handler does besides extracting parameters: the
/// arguments it passes, the executor parameter it creates, and whether that
/// executor runs in a transaction (it does when named `sql_exe_with_tran`).
pub struct HandlerPlan {
    pub inputs: Vec<String>,
    pub executor: Option<String>,
    pub with_tran: bool,
}

/// The plan of the proxy of a handler with these parameters. A handler has at
/// least one parameter, each written with a supported extractor.
pub fn plan_handler(params: &Vec<HandlerParam>) -> (r: HandlerPlan)
    requires
        params@.len() > 0,
        all_supported(params@),
    ensures
        views(r.inputs@) == call_inputs(params@),
        match last_executor(params@) {
            Some(n) => r.executor matches Some(e) && e@ == n,
            None => r.executor is None,
        },
        r.with_tran == (last_executor(params@) == Some("sql_exe_with_tran"@)),
{
    let mut inputs: Vec<String> = Vec::new();
    let mut executor: Option<String> = None;
    let mut i: usize = 0;
    while i < params.len()
        invariant
            i <= params@.len(),
            all_supported(params@),
            views(inputs@) == call_inputs(params@).take(i as int),
            match last_executor(params@.take(i as int)) {
                Some(n) => executor matches Some(e) && e@ == n,
                None => executor is None,
            },
        decreases params@.len() - i,
    {
        let p = &params[i];
        assert(param_source(params@[i as int].param_type@) is Some);
        let ghost next = params@.take(i + 1);
        assert(next.drop_last() =~= params@.take(i as int));
        assert(next.last() == params@[i as int]);
        let source = classify_param(p.param_type.as_str());
        let item = match source {
            Some(ParamSource::Executor) => {
                executor = Some(p.param_name.clone());
                concat("&mut ", p.param_name.as_str())
            },
            Some(ParamSource::Context) => "ctx".to_string(),
            _ => p.param_name.clone(),
        };
        assert(item@ == call_input(source->0, params@[i as int].param_name@));
        assert(call_inputs(params@)[i as int] == item@);
        let ghost old_inputs = inputs@;
        inputs.push(item);
        assert(inputs@ == old_inputs.push(item));
        assert(views(inputs@) =~= views(old_inputs).push(item@));
        assert(views(inputs@) =~= call_inputs(params@).take(i + 1));
        i = i + 1;
    }
    assert(params@.take(i as int) =~= params@);
    let with_tran = match &executor {
        Some(e) => str_eq(e.as_str(), "sql_exe_with_tran"),
        None => false,
    };
    HandlerPlan { inputs, executor, with_tran }
}

/// The argument list of the handler call: the inputs separated by commas.
pub fn call_arguments(inputs: &Vec<String>) -> (r: String)
    ensures
        r@ == join(views(inputs@), ","@),
{
    join_strings(inputs, ",")
}

/// The statement of the proxy that extracts a `Json`, `Form`, `Query` or
/// `Multipart` parameter from the request.
pub open spec fn extraction_line_spec(extractor: Seq<char>, name: Seq<char>) -> Seq<char> {
    "  let "@ + name + " = "@ + extractor + "::from_request(ctx).await?;\r\n"@
}

/// The statement of the proxy that extracts a `Json`, `Form`, `Query` or
/// `Multipart` parameter from the request.
pub fn extraction_line(extractor: &str, name: &str) -> (r: String)
    ensures
        r@ == extraction_line_spec(extractor@, name@),
{
    let mut r = concat("  let ", name);
    r.append(" = ");
    r.append(extractor);
    r.append("::from_request(ctx).await?;\r\n");
    r
}

/// The call of the handler in its proxy. Without a transaction an error is
/// passed on and a result turned into the response; with one the result is
/// kept for the commit or rollback that follows.
pub open spec fn handler_call_spec(fn_name: Seq<char>, arguments: Seq<char>, with_tran: bool) -> Seq<char> {
    if with_tran {
        "let handler_result = "@ + fn_name + "("@ + arguments + ").await;\r\n"@
    } else {
        "let handler_result = "@ + fn_name + "("@ + arguments + ").await?;\r\n"@
            + "Ok(handler_result.into_response())\r\n"@
    }
}

/// The call of the handler in its proxy.
pub fn handler_call(fn_name: &str, arguments: &str, with_tran: bool) -> (r: String)
    ensures
        r@ == handler_call_spec(fn_name@, arguments@, with_tran),
{
    let mut r = concat("let handler_result = ", fn_name);
    r.append("(");
    r.append(arguments);
    if with_tran {
        r.append(").await;\r\n");
    } else {
        r.append(").await?;\r\n");
        r.append("Ok(handler_result.into_response())\r\n");
    }
    r
}

/// Whether a file holds controllers: its path ends with `_controller.rs`.
pub fn is_controller_file(path: &str) -> (r: bool)
    ensures
        r == is_suffix("_controller.rs"@, path@),
{
    ends_with(path, "_controller.rs")
}

/// The module name of a controller file: its name without `.rs`.
pub fn controller_module_name(file_name: &str) -> (r: String)
    ensures
        r@ == remove_all_spec(file_name@, ".rs"@),
{
    remove_all(file_name, ".rs")
}

/// The method and the path of a `#[route(..)]` attribute from its two string
/// literals as written, without their quotes. The attribute has exactly two.
pub fn route_attribute(literals: &Vec<String>) -> (r: (String, String))
    requires
        literals@.len() == 2,
    ensures
        r.0@ == remove_all_spec(literals@[0]@, "\""@),
        r.1@ == remove_all_spec(literals@[1]@, "\""@),
{
    let method = remove_all(literals[0].as_str(), "\"");
    let url = remove_all(literals[1].as_str(), "\"");
    (method, url)
}

/// The registration of one route: its method, its path and the proxy of the
/// handler `file::module::function`.
pub open spec fn register_route_line_spec(
    method: Seq<char>,
    url: Seq<char>,
    file: Seq<char>,
    module: Seq<char>,
    function: Seq<char>,
) -> Seq<char> {
    "  register_route(\""@ + method + "\".to_string(),\""@ + url + "\".to_string(),"@ + file + "::"@ + module
        + "::"@ + function + "_handler_proxy"@ + ");\r\n"@
}

pub fn register_route_line(method: &str, url: &str, file: &str, module: &str, function: &str) -> (r: String)
    ensures
        r@ == register_route_line_spec(method@, url@, file@, module@, function@),
{
    let mut r = concat("  register_route(\"", method);
    r.append("\".to_string(),\"");
    r.append(url);
    r.append("\".to_string(),");
    r.append(file);
    r.append("::");
    r.append(module);
    r.append("::");
    r.append(function);
    r.append(HANDLER_PROXY_FN_SUFFIX);
    r.append(");\r\n");
    r
}

/// The `register_routes` function that performs the registrations, or nothing
/// when there are none.
pub fn register_routes_fn(registrations: &str) -> (r: Option<String>)
    ensures
        registrations@.len() == 0 ==> r is None,
        registrations@.len() > 0 ==> (r matches Some(f) && f@ == "pub fn register_routes(){\r\n"@ + registrations@
            + "\r\n}"@),
{
    if registrations.unicode_len() == 0 {
        None
    } else {
        let mut f = concat("pub fn register_routes(){\r\n", registrations);
        f.append("\r\n}");
        Some(f)
    }
}

} // verus!
