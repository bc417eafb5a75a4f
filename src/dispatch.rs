//! The host side: parses what the web view sends, hands requests to the
//! handler, and writes the script that settles the call in the web view.

use vstd::prelude::*;
use vstd::string::*;
use crate::json::{Json, is_json, parsed, reads_as, written_as, text_of, MAX_DEPTH};
use crate::message::{
    RpcId, RpcRequest, RpcResponse, Reply, Outcome, internal_error, is_internal_error, id_json,
    decode_spec,
};

verus! {

/// The script that installs the calling side in the web view as
/// `window.rpc`, with `call`, `notify` and the entry points `_result` and
/// `_error` through which replies settle waiting calls.
pub const CLIENT_SCRIPT: &'static str = r#"
(function() {
    function Rpc() {
        const self = this;
        this._promises = {};

        // Called with the error of a call; ignored once the call is settled.
        this._error = (id, error) => {
            if (this._promises[id]) {
                this._promises[id].reject(error);
                delete this._promises[id];
            }
        }

        // Called with the result of a call; ignored once the call is settled.
        this._result = (id, result) => {
            if (this._promises[id]) {
                this._promises[id].resolve(result);
                delete this._promises[id];
            }
        }

        // Calls a host method and waits for its reply.
        this.call = function(method) {
            let array = new Uint32Array(1);
            let id;
            do {
                window.crypto.getRandomValues(array);
                id = array[0];
            } while (self._promises[id]);
            const params = Array.prototype.slice.call(arguments, 1);
            const payload = {jsonrpc: "2.0", id, method, params};
            const promise = new Promise((resolve, reject) => {
                self._promises[id] = {resolve, reject};
            });
            window.ipc.postMessage(JSON.stringify(payload));
            return promise;
        }

        // Sends a notification: no `id`, so no reply is expected.
        this.notify = function(method) {
            const params = Array.prototype.slice.call(arguments, 1);
            const payload = {jsonrpc: "2.0", method, params};
            window.ipc.postMessage(JSON.stringify(payload));
            return Promise.resolve();
        }
    }
    window.external = window.external || {};
    window.external.rpc = new Rpc();
    window.rpc = window.external.rpc;
})();
"#;

/// How a response answers: by its result, by its error, or, where it sets
/// neither or both, by the internal error.
pub open spec fn outcome_of(r: RpcResponse) -> Outcome {
    match (r.result, r.error) {
        (Some(v), None) => Outcome::Value(v),
        (None, Some(e)) => Outcome::Failure(e),
        _ => Outcome::Malformed,
    }
}

/// What goes back for a request with identifier `id` (none for a
/// notification) on which the handler returned `resp`. The identifier sent
/// back is always the request's own.
pub open spec fn settle_spec(id: Option<RpcId>, resp: Option<RpcResponse>) -> Option<Reply> {
    match (id, resp) {
        (Some(i), Some(r)) => Some(Reply { id: i, outcome: outcome_of(r) }),
        _ => None,
    }
}

/// The script text that settles a call: `window.external.rpc._result(id, payload)`,
/// or `_error` in place of `_result`.
pub open spec fn script_text(is_error: bool, id_text: Seq<char>, payload_text: Seq<char>) -> Seq<char> {
    (if is_error {
        "window.external.rpc._error("@
    } else {
        "window.external.rpc._result("@
    }) + id_text + ", "@ + payload_text + ")"@
}

/// Whether `vp` is the value written for the payload of an outcome: the
/// result, the error, or the internal error.
pub open spec fn payload_written(vp: serde_json::Value, o: Outcome) -> bool {
    match o {
        Outcome::Value(v) => written_as(vp, v),
        Outcome::Failure(e) => written_as(vp, e),
        Outcome::Malformed => exists|p: Json| is_internal_error(p) && written_as(vp, p),
    }
}

/// Whether `s` is the script that settles the call of `rep`: `_result` or
/// `_error` with the text of the reply's identifier and of its payload.
pub open spec fn scripted(rep: Reply, s: Seq<char>) -> bool {
    exists|vi: serde_json::Value, vp: serde_json::Value|
        written_as(vi, id_json(rep.id)) && payload_written(vp, rep.outcome) && s == script_text(
            rep.is_error(),
            text_of(vi),
            text_of(vp),
        )
}

/// The reply, if any, for a request with identifier `id` on which the
/// handler returned `resp`.
pub fn settle(id: Option<RpcId>, resp: Option<RpcResponse>) -> (r: Option<Reply>)
    ensures
        r == settle_spec(id, resp),
        id is None ==> r is None,
{
    match (id, resp) {
        (Some(i), Some(r)) => {
            let outcome = match (r.result, r.error) {
                (Some(v), None) => Outcome::Value(v),
                (None, Some(e)) => Outcome::Failure(e),
                _ => Outcome::Malformed,
            };
            Some(Reply { id: i, outcome })
        },
        _ => None,
    }
}

/// The script that settles a call, from the JSON texts of its identifier
/// and of its payload.
pub fn resolution_script(is_error: bool, id_text: &str, payload_text: &str) -> (r: String)
    ensures
        r@ == script_text(is_error, id_text@, payload_text@),
{
    let mut s = if is_error {
        String::from_str("window.external.rpc._error(")
    } else {
        String::from_str("window.external.rpc._result(")
    };
    s.append(id_text);
    s.append(", ");
    s.append(payload_text);
    s.append(")");
    s
}

impl Reply {
    /// Whether the reply rejects the call.
    pub open spec fn is_error(&self) -> bool {
        !(self.outcome is Value)
    }

    /// The script that settles the call in the web view.
    pub fn script(self) -> (r: String)
        ensures
            scripted(self, r@),
    {
        let ghost rep = self;
        let ghost err = self.is_error();
        let is_error = !matches!(self.outcome, Outcome::Value(_));
        let id_text = self.id.to_json().to_text();
        let payload = match self.outcome {
            Outcome::Value(v) => v,
            Outcome::Failure(e) => e,
            Outcome::Malformed => internal_error(),
        };
        let payload_text = payload.to_text();
        let r = resolution_script(is_error, id_text.as_str(), payload_text.as_str());
        proof {
            let vi = choose|vi: serde_json::Value|
                written_as(vi, id_json(rep.id)) && id_text@ == text_of(vi);
            let vp = choose|vp: serde_json::Value|
                written_as(vp, payload) && payload_text@ == text_of(vp);
            assert(payload_written(vp, rep.outcome));
            assert(r@ == script_text(err, text_of(vi), text_of(vp)));
        }
        r
    }
}

impl RpcResponse {
    /// A response that fulfills the call with `result`.
    pub fn success(result: Json) -> (r: RpcResponse)
        ensures
            r.jsonrpc@ == "2.0"@,
            r.id is None,
            r.result == Some(result),
            r.error is None,
    {
        RpcResponse { jsonrpc: crate::message::version_tag(), id: None, result: Some(result), error: None }
    }

    /// A response that rejects the call with `error`.
    pub fn failure(error: Json) -> (r: RpcResponse)
        ensures
            r.jsonrpc@ == "2.0"@,
            r.id is None,
            r.result is None,
            r.error == Some(error),
    {
        RpcResponse { jsonrpc: crate::message::version_tag(), id: None, result: None, error: Some(error) }
    }
}

/// The host side of the bridge, holding the handler that answers requests.
pub struct JsonRpc<F> {
    pub rpc_handler: Option<F>,
}

impl<F: Fn(RpcRequest) -> Option<RpcResponse>> JsonRpc<F> {
    /// A dispatcher without handler.
    pub fn new() -> (r: JsonRpc<F>)
        ensures
            r.rpc_handler is None,
    {
        JsonRpc { rpc_handler: None }
    }

    /// Sets the handler that answers requests.
    pub fn with_rpc_handler(self, handler: F) -> (r: JsonRpc<F>)
        ensures
            r.rpc_handler == Some(handler),
    {
        JsonRpc { rpc_handler: Some(handler) }
    }

    /// Whether the handler accepts every request.
    pub open spec fn handler_total(&self) -> bool {
        match self.rpc_handler {
            Some(h) => forall|q: RpcRequest| #[trigger] h.requires((q,)),
            None => true,
        }
    }

    /// Whether `r` is what a message that reads as `j` gets back: nothing
    /// where `j` is not a request or no handler is set; otherwise, for some
    /// answer of the handler to the request, nothing where no reply is owed
    /// and else the script that settles the call with that reply.
    pub open spec fn answers(&self, j: Json, r: Option<String>) -> bool {
        match decode_spec(j) {
            Err(_) => r is None,
            Ok(q) => match self.rpc_handler {
                None => r is None,
                Some(h) => exists|out: Option<RpcResponse>|
                    h.ensures((q,), out) && match settle_spec(q.id, out) {
                        None => r is None,
                        Some(rep) => r is Some && scripted(rep, r->Some_0@),
                    },
            },
        }
    }

    /// The script to install in the web view before any page script runs;
    /// none where no handler is set, as nothing would answer.
    pub fn build(&self) -> (r: Option<String>)
        ensures
            self.rpc_handler is None ==> r is None,
            self.rpc_handler is Some ==> (r matches Some(s) && s@ == CLIENT_SCRIPT@),
    {
        if self.rpc_handler.is_some() {
            Some(String::from_str(CLIENT_SCRIPT))
        } else {
            None
        }
    }

    /// Hands a request to the handler and makes the reply, if one is owed.
    pub fn dispatch(&self, req: RpcRequest) -> (r: Option<Reply>)
        requires
            self.handler_total(),
        ensures
            self.rpc_handler is None ==> r is None,
            req.id is None ==> r is None,
            self.rpc_handler matches Some(h) ==> exists|out: Option<RpcResponse>|
                h.ensures((req,), out) && r == settle_spec(req.id, out),
    {
        match &self.rpc_handler {
            Some(h) => {
                let id = match &req.id {
                    Some(i) => Some(i.duplicate()),
                    None => None,
                };
                let out = h(req);
                settle(id, out)
            },
            None => None,
        }
    }

    /// Handles one message from the web view: the script to run in the web
    /// view in return, if any. A message that is not a request is dropped.
    pub fn on_message(&self, raw: &str) -> (r: Option<String>)
        requires
            self.handler_total(),
        ensures
            !is_json(raw@) ==> r is None,
            self.rpc_handler is None ==> r is None,
            is_json(raw@) ==> exists|j: Json| reads_as(parsed(raw@), j, MAX_DEPTH as nat) && self.answers(j, r),
    {
        let req = RpcRequest::parse(raw);
        let ghost j = choose|j: Json| reads_as(parsed(raw@), j, MAX_DEPTH as nat) && req == decode_spec(j);
        let r = match req {
            Ok(q) => {
                let ghost q0 = q;
                let d = self.dispatch(q);
                match d {
                    Some(reply) => Some(reply.script()),
                    None => None,
                }
            },
            Err(_) => None,
        };
        proof {
            if is_json(raw@) {
                assert(self.answers(j, r));
            }
        }
        r
    }
}

} // verus!
