//! Routing of requests to the fixed set of methods, and what each answers.
use vstd::prelude::*;
use vstd::string::StringExecFns;

use crate::json::{option_model, ref_model, Json, JsonModel};
use crate::protocol::{
    option_response_model, request_of, rpc_version, Request, RequestModel, Response,
    ResponseModel, RpcError, METHOD_NOT_FOUND,
};

verus! {

/// The methods this server knows, and everything else.
#[derive(Clone, Copy, Debug, PartialEq, Eq, Structural)]
pub enum Method {
    /// `initialize`: the handshake call.
    Initialize,
    /// `tools/list`: the tool catalog.
    ToolsList,
    /// `tools/call`: invoke the greeting tool.
    ToolsCall,
    /// `notifications/initialized`: the end of the handshake, never answered.
    Initialized,
    /// `list_tools`: the older name of the catalog call.
    ListTools,
    /// `call_tool`: the older name of the tool call.
    CallTool,
    /// Any other name.
    Unknown,
}

/// The method that a name stands for.
pub open spec fn method_of(name: Seq<char>) -> Method {
    if name == "initialize"@ {
        Method::Initialize
    } else if name == "tools/list"@ {
        Method::ToolsList
    } else if name == "tools/call"@ {
        Method::ToolsCall
    } else if name == "notifications/initialized"@ {
        Method::Initialized
    } else if name == "list_tools"@ {
        Method::ListTools
    } else if name == "call_tool"@ {
        Method::CallTool
    } else {
        Method::Unknown
    }
}

impl Method {
    /// The method that `name` stands for.
    pub fn from_name(name: &str) -> (r: Method)
        ensures
            r == method_of(name@),
    {
        let n = String::from_str(name);
        if n == String::from_str("initialize") {
            Method::Initialize
        } else if n == String::from_str("tools/list") {
            Method::ToolsList
        } else if n == String::from_str("tools/call") {
            Method::ToolsCall
        } else if n == String::from_str("notifications/initialized") {
            Method::Initialized
        } else if n == String::from_str("list_tools") {
            Method::ListTools
        } else if n == String::from_str("call_tool") {
            Method::CallTool
        } else {
            Method::Unknown
        }
    }
}

/// The member `key` of an optional value.
pub open spec fn member_of(o: Option<JsonModel>, key: Seq<char>) -> Option<JsonModel> {
    match o {
        Some(v) => v.get(key),
        None => None,
    }
}

/// The text of an optional value if it is a string, else `default`.
pub open spec fn text_or(o: Option<JsonModel>, default: Seq<char>) -> Seq<char> {
    match o {
        Some(JsonModel::String(s)) => s,
        _ => default,
    }
}

/// The protocol version that `initialize` answers with: the client's, when
/// `params.protocolVersion` is a string, else the server's default.
pub open spec fn protocol_version(params: Option<JsonModel>) -> Seq<char> {
    text_or(member_of(params, "protocolVersion"@), "2024-11-05"@)
}

/// The name that `tools/call` greets: `params.arguments.name` when it is a
/// string, else `World`.
pub open spec fn tools_call_name(params: Option<JsonModel>) -> Seq<char> {
    text_or(member_of(member_of(params, "arguments"@), "name"@), "World"@)
}

/// The name that `call_tool` greets: `params.name` when it is a string, else
/// `World`.
pub open spec fn call_tool_name(params: Option<JsonModel>) -> Seq<char> {
    text_or(member_of(params, "name"@), "World"@)
}

/// A string value.
pub open spec fn string(s: Seq<char>) -> JsonModel {
    JsonModel::String(s)
}

/// The result of `initialize`.
pub open spec fn initialize_result(version: Seq<char>) -> JsonModel {
    JsonModel::Object(
        seq![
            ("protocolVersion"@, string(version)),
            (
                "capabilities"@,
                JsonModel::Object(
                    seq![
                        ("tools"@, JsonModel::Object(seq![])),
                        ("resources"@, JsonModel::Object(seq![])),
                        ("prompts"@, JsonModel::Object(seq![])),
                    ],
                ),
            ),
            (
                "serverInfo"@,
                JsonModel::Object(
                    seq![("name"@, string("hello-world-mcp"@)), ("version"@, string("1.0.1"@))],
                ),
            ),
        ],
    )
}

/// A catalog of one tool that takes a string argument `name`.
pub open spec fn catalog(
    tool: Seq<char>,
    description: Seq<char>,
    name_description: Seq<char>,
) -> JsonModel {
    let schema = JsonModel::Object(
        seq![
            ("type"@, string("object"@)),
            (
                "properties"@,
                JsonModel::Object(
                    seq![
                        (
                            "name"@,
                            JsonModel::Object(
                                seq![
                                    ("type"@, string("string"@)),
                                    ("description"@, string(name_description)),
                                ],
                            ),
                        ),
                    ],
                ),
            ),
            ("required"@, JsonModel::Array(seq![string("name"@)])),
        ],
    );
    JsonModel::Object(
        seq![
            (
                "tools"@,
                JsonModel::Array(
                    seq![
                        JsonModel::Object(
                            seq![
                                ("name"@, string(tool)),
                                ("description"@, string(description)),
                                ("inputSchema"@, schema),
                            ],
                        ),
                    ],
                ),
            ),
        ],
    )
}

/// The result of `tools/list`.
pub open spec fn tools_list_result() -> JsonModel {
    catalog("hello"@, "Returns a friendly greeting"@, "The name to greet"@)
}

/// The result of `list_tools`.
pub open spec fn list_tools_result() -> JsonModel {
    catalog("greet"@, "Returns a friendly greeting."@, "Name to greet"@)
}

/// A content list of one text item.
pub open spec fn text_content(text: Seq<char>) -> JsonModel {
    JsonModel::Array(
        seq![JsonModel::Object(seq![("type"@, string("text"@)), ("text"@, string(text))])],
    )
}

/// The greeting that `tools/call` returns.
pub open spec fn tools_call_greeting(name: Seq<char>) -> Seq<char> {
    "Hello, "@ + name + "! This is a greeting from the MCP server."@
}

/// The greeting that `call_tool` returns.
pub open spec fn call_tool_greeting(name: Seq<char>) -> Seq<char> {
    "Hello, "@ + name + "! Strict handshake successful."@
}

/// The result of `tools/call`.
pub open spec fn tools_call_result(params: Option<JsonModel>) -> JsonModel {
    JsonModel::Object(
        seq![
            ("content"@, text_content(tools_call_greeting(tools_call_name(params)))),
            ("isError"@, JsonModel::Bool(false)),
        ],
    )
}

/// The result of `call_tool`.
pub open spec fn call_tool_result(params: Option<JsonModel>) -> JsonModel {
    JsonModel::Object(
        seq![("content"@, text_content(call_tool_greeting(call_tool_name(params))))],
    )
}

/// The message of the error for an unknown method.
pub open spec fn not_found_message(method: Seq<char>) -> Seq<char> {
    "Method not found: "@ + method
}

/// A successful response.
pub open spec fn success(result: JsonModel, id: Option<JsonModel>) -> ResponseModel {
    ResponseModel { jsonrpc: rpc_version(), result: Some(result), error: None, id }
}

/// A failed response.
pub open spec fn failure(code: int, message: Seq<char>, id: Option<JsonModel>) -> ResponseModel {
    ResponseModel { jsonrpc: rpc_version(), result: None, error: Some((code, message)), id }
}

/// What the server answers to a request, if anything.
pub open spec fn reply(req: RequestModel) -> Option<ResponseModel> {
    match method_of(req.method) {
        Method::Initialize => Some(success(initialize_result(protocol_version(req.params)), req.id)),
        Method::ToolsList => Some(success(tools_list_result(), req.id)),
        Method::ToolsCall => Some(success(tools_call_result(req.params), req.id)),
        Method::Initialized => None,
        Method::ListTools => Some(success(list_tools_result(), req.id)),
        Method::CallTool => Some(success(call_tool_result(req.params), req.id)),
        Method::Unknown => if req.id is Some {
            Some(failure(METHOD_NOT_FOUND as int, not_found_message(req.method), req.id))
        } else {
            None
        },
    }
}

/// What the server answers to a decoded message, if anything: a message
/// that is not a request is dropped.
pub open spec fn respond(msg: JsonModel) -> Option<ResponseModel> {
    match request_of(msg) {
        Some(req) => reply(req),
        None => None,
    }
}

/// The member `key` of an optional value.
fn member<'a>(o: Option<&'a Json>, key: &str) -> (r: Option<&'a Json>)
    ensures
        ref_model(r) == member_of(ref_model(o), key@),
{
    match o {
        Some(v) => v.get(key),
        None => None,
    }
}

/// The text of an optional value if it is a string, else `default`.
fn text_or_default(o: Option<&Json>, default: &str) -> (r: String)
    ensures
        r@ == text_or(ref_model(o), default@),
{
    let s = match o {
        Some(v) => v.as_str(),
        None => None,
    };
    match s {
        Some(t) => String::from_str(t),
        None => String::from_str(default),
    }
}

/// `prefix`, then `middle`, then `suffix`.
fn concat3(prefix: &str, middle: &str, suffix: &str) -> (r: String)
    ensures
        r@ == prefix@ + middle@ + suffix@,
{
    let mut s = String::from_str(prefix);
    s.append(middle);
    s.append(suffix);
    s
}

/// The result of `initialize` for the given params.
pub fn handle_initialize(params: Option<&Json>) -> (r: Json)
    ensures
        r.model() == initialize_result(protocol_version(ref_model(params))),
{
    let version = text_or_default(member(params, "protocolVersion"), "2024-11-05");
    let capabilities = Json::object3(
        "tools",
        Json::empty_object(),
        "resources",
        Json::empty_object(),
        "prompts",
        Json::empty_object(),
    );
    let server_info = Json::object2(
        "name",
        Json::from_text("hello-world-mcp"),
        "version",
        Json::from_text("1.0.1"),
    );
    Json::object3(
        "protocolVersion",
        Json::String(version),
        "capabilities",
        capabilities,
        "serverInfo",
        server_info,
    )
}

fn catalog_of(tool: &str, description: &str, name_description: &str) -> (r: Json)
    ensures
        r.model() == catalog(tool@, description@, name_description@),
{
    let name_schema = Json::object2(
        "type",
        Json::from_text("string"),
        "description",
        Json::from_text(name_description),
    );
    let schema = Json::object3(
        "type",
        Json::from_text("object"),
        "properties",
        Json::object1("name", name_schema),
        "required",
        Json::array1(Json::from_text("name")),
    );
    let entry = Json::object3(
        "name",
        Json::from_text(tool),
        "description",
        Json::from_text(description),
        "inputSchema",
        schema,
    );
    Json::object1("tools", Json::array1(entry))
}

/// The result of `tools/list`.
pub fn handle_tools_list() -> (r: Json)
    ensures
        r.model() == tools_list_result(),
{
    catalog_of("hello", "Returns a friendly greeting", "The name to greet")
}

/// The result of `list_tools`.
pub fn handle_list_tools() -> (r: Json)
    ensures
        r.model() == list_tools_result(),
{
    catalog_of("greet", "Returns a friendly greeting.", "Name to greet")
}

fn text_content_of(text: String) -> (r: Json)
    ensures
        r.model() == text_content(text@),
{
    Json::array1(Json::object2("type", Json::from_text("text"), "text", Json::String(text)))
}

/// The result of `tools/call` for the given params.
pub fn handle_tools_call(params: Option<&Json>) -> (r: Json)
    ensures
        r.model() == tools_call_result(ref_model(params)),
{
    let name = text_or_default(member(member(params, "arguments"), "name"), "World");
    let text = concat3("Hello, ", name.as_str(), "! This is a greeting from the MCP server.");
    Json::object2("content", text_content_of(text), "isError", Json::Bool(false))
}

/// The result of `call_tool` for the given params.
pub fn handle_call_tool(params: Option<&Json>) -> (r: Json)
    ensures
        r.model() == call_tool_result(ref_model(params)),
{
    let name = text_or_default(member(params, "name"), "World");
    let text = concat3("Hello, ", name.as_str(), "! Strict handshake successful.");
    Json::object1("content", text_content_of(text))
}

/// The error for a call of an unknown method.
pub fn method_not_found(method: &str) -> (r: RpcError)
    ensures
        r.model() == (METHOD_NOT_FOUND as int, not_found_message(method@)),
{
    let mut message = String::from_str("Method not found: ");
    message.append(method);
    RpcError { code: METHOD_NOT_FOUND, message }
}

fn answer(result: Json, id: Option<Json>) -> (r: Response)
    ensures
        r.model() == success(result.model(), option_model(id)),
{
    Response { jsonrpc: String::from_str("2.0"), result: Some(result), error: None, id }
}

/// What the server answers to `req`: a response, or nothing for a
/// notification.
pub fn dispatch(req: Request) -> (r: Option<Response>)
    ensures
        option_response_model(r) == reply(req.model()),
{
    let params = req.params.as_ref();
    match Method::from_name(req.method.as_str()) {
        Method::Initialize => Some(answer(handle_initialize(params), req.id)),
        Method::ToolsList => Some(answer(handle_tools_list(), req.id)),
        Method::ToolsCall => Some(answer(handle_tools_call(params), req.id)),
        Method::Initialized => None,
        Method::ListTools => Some(answer(handle_list_tools(), req.id)),
        Method::CallTool => Some(answer(handle_call_tool(params), req.id)),
        Method::Unknown => {
            if req.id.is_some() {
                let error = method_not_found(req.method.as_str());
                Some(
                    Response {
                        jsonrpc: String::from_str("2.0"),
                        result: None,
                        error: Some(error),
                        id: req.id,
                    },
                )
            } else {
                None
            }
        },
    }
}

/// What the server answers to a decoded message: nothing when it is not a
/// request, else what [`dispatch`] answers.
pub fn handle_message(msg: &Json) -> (r: Option<Response>)
    ensures
        option_response_model(r) == respond(msg.model()),
{
    match Request::from_json(msg) {
        Some(req) => dispatch(req),
        None => None,
    }
}

} // verus!
