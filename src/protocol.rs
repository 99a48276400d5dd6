//! JSON-RPC requests and responses, and the methods this server knows.
use vstd::prelude::*;
use vstd::string::StringExecFns;

use crate::json::{option_model, Json, JsonModel};

verus! {

/// The version string carried by every response.
pub open spec fn rpc_version() -> Seq<char> {
    "2.0"@
}

/// The error code for a method that this server does not know.
pub const METHOD_NOT_FOUND: i64 = -32601;

/// A JSON-RPC request. A request without an `id` is a notification.
#[derive(Debug)]
pub struct Request {
    pub jsonrpc: String,
    pub method: String,
    pub params: Option<Json>,
    pub id: Option<Json>,
}

/// The mathematical model of a [`Request`].
pub struct RequestModel {
    pub jsonrpc: Seq<char>,
    pub method: Seq<char>,
    pub params: Option<JsonModel>,
    pub id: Option<JsonModel>,
}

/// The error object of a failed call.
#[derive(Debug)]
pub struct RpcError {
    pub code: i64,
    pub message: String,
}

/// A JSON-RPC response: exactly one of `result` and `error` is present.
#[derive(Debug)]
pub struct Response {
    pub jsonrpc: String,
    pub result: Option<Json>,
    pub error: Option<RpcError>,
    pub id: Option<Json>,
}

/// The mathematical model of a [`Response`]; an error is its code and message.
pub struct ResponseModel {
    pub jsonrpc: Seq<char>,
    pub result: Option<JsonModel>,
    pub error: Option<(int, Seq<char>)>,
    pub id: Option<JsonModel>,
}

impl Request {
    pub open spec fn model(self) -> RequestModel {
        RequestModel {
            jsonrpc: self.jsonrpc@,
            method: self.method@,
            params: option_model(self.params),
            id: option_model(self.id),
        }
    }
}

impl RpcError {
    pub open spec fn model(self) -> (int, Seq<char>) {
        (self.code as int, self.message@)
    }
}

impl Response {
    pub open spec fn model(self) -> ResponseModel {
        ResponseModel {
            jsonrpc: self.jsonrpc@,
            result: option_model(self.result),
            error: match self.error {
                Some(e) => Some(e.model()),
                None => None,
            },
            id: option_model(self.id),
        }
    }
}

impl ResponseModel {
    /// The shape every response has: version "2.0" and exactly one of a
    /// result and an error.
    pub open spec fn well_formed(self) -> bool {
        &&& self.jsonrpc == rpc_version()
        &&& (self.result is Some) != (self.error is Some)
    }
}

/// The model of an optional response.
pub open spec fn option_response_model(r: Option<Response>) -> Option<ResponseModel> {
    match r {
        Some(resp) => Some(resp.model()),
        None => None,
    }
}

/// The request that a decoded message holds: an object with a string
/// `jsonrpc` and a string `method`. `params` and `id` are taken as they are
/// when present; an explicit `null` counts as present.
pub open spec fn request_of(msg: JsonModel) -> Option<RequestModel> {
    match (msg.get("jsonrpc"@), msg.get("method"@)) {
        (Some(JsonModel::String(v)), Some(JsonModel::String(m))) => Some(
            RequestModel { jsonrpc: v, method: m, params: msg.get("params"@), id: msg.get("id"@) },
        ),
        _ => None,
    }
}

fn copy_option(o: Option<&Json>) -> (r: Option<Json>)
    ensures
        match o {
            Some(j) => option_model(r) == Some(j.model()),
            None => r is None,
        },
{
    match o {
        Some(j) => Some(j.copy()),
        None => None,
    }
}

impl Request {
    /// The request that `msg` holds, if it has the shape of one.
    pub fn from_json(msg: &Json) -> (r: Option<Request>)
        ensures
            match r {
                Some(req) => request_of(msg.model()) == Some(req.model()),
                None => request_of(msg.model()) is None,
            },
    {
        let jsonrpc = match msg.get("jsonrpc") {
            Some(v) => v.as_str(),
            None => None,
        };
        let method = match msg.get("method") {
            Some(m) => m.as_str(),
            None => None,
        };
        match (jsonrpc, method) {
            (Some(v), Some(m)) => {
                let params = copy_option(msg.get("params"));
                let id = copy_option(msg.get("id"));
                Some(
                    Request {
                        jsonrpc: String::from_str(v),
                        method: String::from_str(m),
                        params,
                        id,
                    },
                )
            },
            _ => None,
        }
    }
}

} // verus!
