//! What holds of every answer the server gives.
use vstd::prelude::*;

use crate::dispatch::{failure, method_of, not_found_message, reply, respond, Method};
use crate::json::JsonModel;
use crate::protocol::{RequestModel, METHOD_NOT_FOUND};

verus! {

/// A message whose `method` is missing, or is not a string, gets no answer.
pub proof fn lemma_no_method_no_answer(msg: JsonModel)
    requires
        !(msg.get("method"@) matches Some(JsonModel::String(_))),
    ensures
        respond(msg) is None,
{
}

/// `notifications/initialized` is never answered, whether or not it carries
/// an `id`.
pub proof fn lemma_initialized_not_answered(req: RequestModel)
    requires
        req.method == "notifications/initialized"@,
    ensures
        reply(req) is None,
{
    reveal_strlit("notifications/initialized");
    reveal_strlit("initialize");
    reveal_strlit("tools/list");
    reveal_strlit("tools/call");
    assert(req.method.len() != "initialize"@.len());
    assert(req.method.len() != "tools/list"@.len());
    assert(req.method.len() != "tools/call"@.len());
}

/// A call of an unknown method that carries an `id` is answered with the
/// method-not-found error, code -32601, naming the method.
pub proof fn lemma_unknown_method_call(req: RequestModel)
    requires
        method_of(req.method) == Method::Unknown,
        req.id is Some,
    ensures
        reply(req) == Some(
            failure(METHOD_NOT_FOUND as int, not_found_message(req.method), req.id),
        ),
        not_found_message(req.method) == "Method not found: "@ + req.method,
        METHOD_NOT_FOUND == -32601,
{
}

/// A notification of an unknown method gets no answer.
pub proof fn lemma_unknown_method_notification(req: RequestModel)
    requires
        method_of(req.method) == Method::Unknown,
        req.id is None,
    ensures
        reply(req) is None,
{
}

/// A request is answered exactly when its method is one that answers, or
/// when its method is unknown and it carries an `id`.
pub proof fn lemma_when_answered(req: RequestModel)
    ensures
        reply(req) is Some <==> (method_of(req.method) != Method::Initialized && (method_of(
            req.method,
        ) != Method::Unknown || req.id is Some)),
{
}

/// Every answer has version "2.0" and exactly one of a result and an error.
pub proof fn lemma_answers_well_formed(msg: JsonModel)
    ensures
        respond(msg) matches Some(r) ==> r.well_formed(),
{
}

/// Every answer carries the `id` of the message it answers, as it was:
/// absent, `null`, a string, a number or any other value.
pub proof fn lemma_id_echoed(msg: JsonModel)
    ensures
        respond(msg) matches Some(r) ==> r.id == msg.get("id"@),
{
}

/// The answer depends on the message alone: the same message, sent twice,
/// gets the same answer both times.
pub proof fn lemma_same_message_same_answer(first: JsonModel, second: JsonModel)
    requires
        first == second,
    ensures
        respond(first) == respond(second),
{
}

} // verus!
