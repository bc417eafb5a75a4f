//! The messages of the protocol: requests, responses, and their encoding as
//! JSON objects.

use vstd::prelude::*;
use vstd::string::*;
use crate::json::Json;

verus! {

/// The identifier of a call: a JSON number or string.
#[derive(Debug)]
pub enum RpcId {
    UInt(u64),
    Int(i64),
    Float(serde_json::Number),
    Str(String),
}

/// Why a JSON value is not a request.
#[derive(Debug, PartialEq, Eq, Structural)]
pub enum ParseError {
    /// The text is not a JSON document.
    NotJson,
    /// The value is not a JSON object.
    NotObject,
    /// The `jsonrpc` member is missing or is not the string `"2.0"`.
    BadVersion,
    /// The `method` member is missing, not a string, or empty.
    BadMethod,
    /// The `id` member is present but neither a number nor a string.
    BadId,
}

/// A call (with an identifier) or a notification (without one).
#[derive(Debug)]
pub struct RpcRequest {
    pub jsonrpc: String,
    pub id: Option<RpcId>,
    pub method: String,
    pub params: Option<Json>,
}

/// A reply to a call: exactly one of `result` and `error` is meant to be set.
#[derive(Debug)]
pub struct RpcResponse {
    pub jsonrpc: String,
    pub id: Option<RpcId>,
    pub result: Option<Json>,
    pub error: Option<Json>,
}

/// How the host answers a call: with a result, with an error, or with the
/// internal error that stands for a response that set neither or both.
#[derive(Debug)]
pub enum Outcome {
    Value(Json),
    Failure(Json),
    Malformed,
}

/// What the host sends back for a call.
#[derive(Debug)]
pub struct Reply {
    pub id: RpcId,
    pub outcome: Outcome,
}

/// The JSON-RPC internal error: `{"code": -32603, "message": "Internal error"}`.
pub open spec fn is_internal_error(j: Json) -> bool {
    match field_view(j) {
        Some(fs) => {
            &&& fs.len() == 2
            &&& fs[0] == ("code"@, Json::Int(-32603i64))
            &&& fs[1].0 == "message"@
            &&& fs[1].1 is Str
            &&& fs[1].1->Str_0@ == "Internal error"@
        },
        None => false,
    }
}

/// The members of an object, with their names as character sequences.
pub open spec fn fields(e: Seq<(String, Json)>) -> Seq<(Seq<char>, Json)> {
    e.map_values(|p: (String, Json)| (p.0@, p.1))
}

/// The members of `j` if it is an object.
pub open spec fn field_view(j: Json) -> Option<Seq<(Seq<char>, Json)>> {
    match j {
        Json::Object(e) => Some(fields(e@)),
        _ => None,
    }
}

/// The value of the last member named `key`, as `serde_json` keeps the
/// last of repeated names.
pub open spec fn lookup(fs: Seq<(Seq<char>, Json)>, key: Seq<char>) -> Option<Json>
    decreases fs.len(),
{
    if fs.len() == 0 {
        None
    } else if fs.last().0 == key {
        Some(fs.last().1)
    } else {
        lookup(fs.drop_last(), key)
    }
}

pub open spec fn id_json(id: RpcId) -> Json {
    match id {
        RpcId::UInt(u) => Json::UInt(u),
        RpcId::Int(i) => Json::Int(i),
        RpcId::Float(n) => Json::Float(n),
        RpcId::Str(s) => Json::Str(s),
    }
}

/// The identifier that a JSON value stands for, if it is a number or a string.
pub open spec fn json_id(j: Json) -> Option<RpcId> {
    match j {
        Json::UInt(u) => Some(RpcId::UInt(u)),
        Json::Int(i) => Some(RpcId::Int(i)),
        Json::Float(n) => Some(RpcId::Float(n)),
        Json::Str(s) => Some(RpcId::Str(s)),
        _ => None,
    }
}

/// A request that decoding accepts: version `"2.0"` and a non-empty method.
pub open spec fn valid_request(r: RpcRequest) -> bool {
    &&& r.jsonrpc@ == "2.0"@
    &&& r.method@.len() > 0
}

/// The members that encoding writes for a request, in order.
pub open spec fn request_fields(r: RpcRequest) -> Seq<(Seq<char>, Json)> {
    seq![("jsonrpc"@, Json::Str(r.jsonrpc))] + match r.id {
        Some(i) => seq![("id"@, id_json(i))],
        None => Seq::empty(),
    } + seq![("method"@, Json::Str(r.method))] + match r.params {
        Some(p) => seq![("params"@, p)],
        None => Seq::empty(),
    }
}

/// The members that encoding writes for a response, in order.
pub open spec fn response_fields(r: RpcResponse) -> Seq<(Seq<char>, Json)> {
    seq![("jsonrpc"@, Json::Str(r.jsonrpc))] + match r.id {
        Some(i) => seq![("id"@, id_json(i))],
        None => Seq::empty(),
    } + match r.result {
        Some(v) => seq![("result"@, v)],
        None => Seq::empty(),
    } + match r.error {
        Some(e) => seq![("error"@, e)],
        None => Seq::empty(),
    }
}

/// What decoding makes of the members of an object.
pub open spec fn decode_fields(fs: Seq<(Seq<char>, Json)>) -> Result<RpcRequest, ParseError> {
    let version = lookup(fs, "jsonrpc"@);
    let method = lookup(fs, "method"@);
    let id = lookup(fs, "id"@);
    if !(version matches Some(Json::Str(v)) && v@ == "2.0"@) {
        Err(ParseError::BadVersion)
    } else if !(method matches Some(Json::Str(m)) && m@.len() > 0) {
        Err(ParseError::BadMethod)
    } else if id is Some && json_id(id->Some_0) is None {
        Err(ParseError::BadId)
    } else {
        Ok(RpcRequest {
            jsonrpc: version->Some_0->Str_0,
            id: match id {
                Some(j) => json_id(j),
                None => None,
            },
            method: method->Some_0->Str_0,
            params: lookup(fs, "params"@),
        })
    }
}

/// What decoding makes of a JSON value.
pub open spec fn decode_spec(j: Json) -> Result<RpcRequest, ParseError> {
    match field_view(j) {
        Some(fs) => decode_fields(fs),
        None => Err(ParseError::NotObject),
    }
}

/// The member names of a request differ from one another.
proof fn lemma_member_names_distinct()
    ensures
        "jsonrpc"@ != "id"@,
        "jsonrpc"@ != "method"@,
        "jsonrpc"@ != "params"@,
        "id"@ != "method"@,
        "id"@ != "params"@,
        "method"@ != "params"@,
{
    reveal_strlit("jsonrpc");
    reveal_strlit("id");
    reveal_strlit("method");
    reveal_strlit("params");
    assert("jsonrpc"@[0] != "id"@[0]);
    assert("jsonrpc"@[0] != "method"@[0]);
    assert("jsonrpc"@[0] != "params"@[0]);
    assert("id"@[0] != "method"@[0]);
    assert("id"@[0] != "params"@[0]);
    assert("method"@[0] != "params"@[0]);
}

/// Encoding a valid request and decoding the result gives the request back.
pub proof fn lemma_request_round_trip(r: RpcRequest, j: Json)
    requires
        valid_request(r),
        field_view(j) == Some(request_fields(r)),
    ensures
        decode_spec(j) == Ok::<RpcRequest, ParseError>(r),
{
    lemma_member_names_distinct();
    reveal_with_fuel(lookup, 5);
    let fs = request_fields(r);
    assert(lookup(fs, "jsonrpc"@) == Some(Json::Str(r.jsonrpc)));
    assert(lookup(fs, "method"@) == Some(Json::Str(r.method)));
    assert(lookup(fs, "params"@) == r.params);
    match r.id {
        Some(i) => {
            assert(lookup(fs, "id"@) == Some(id_json(i)));
        },
        None => {
            assert(lookup(fs, "id"@) is None);
        },
    }
    assert(decode_fields(fs) == Ok::<RpcRequest, ParseError>(r));
}

impl RpcId {
    /// A copy of the identifier.
    pub fn duplicate(&self) -> (r: RpcId)
        ensures
            r == *self,
    {
        match self {
            RpcId::UInt(u) => RpcId::UInt(*u),
            RpcId::Int(i) => RpcId::Int(*i),
            RpcId::Float(n) => RpcId::Float(n.clone()),
            RpcId::Str(s) => RpcId::Str(s.clone()),
        }
    }

    /// The identifier as a JSON value.
    pub fn to_json(self) -> (r: Json)
        ensures
            r == id_json(self),
    {
        match self {
            RpcId::UInt(u) => Json::UInt(u),
            RpcId::Int(i) => Json::Int(i),
            RpcId::Float(n) => Json::Float(n),
            RpcId::Str(s) => Json::Str(s),
        }
    }
}

/// The JSON-RPC internal error value.
pub fn internal_error() -> (r: Json)
    ensures
        is_internal_error(r),
{
    let mut out: Vec<(String, Json)> = Vec::new();
    out.push((String::from_str("code"), Json::Int(-32603)));
    out.push((String::from_str("message"), Json::Str(String::from_str("Internal error"))));
    let r = Json::Object(out);
    assert(field_view(r) == Some(fields(out@)));
    r
}

/// The protocol version tag, `"2.0"`.
pub fn version_tag() -> (r: String)
    ensures
        r@ == "2.0"@,
{
    String::from_str("2.0")
}

impl RpcRequest {
    /// A request of the current protocol version.
    pub fn new(id: Option<RpcId>, method: String, params: Option<Json>) -> (r: RpcRequest)
        ensures
            r.jsonrpc@ == "2.0"@,
            r.id == id,
            r.method == method,
            r.params == params,
    {
        RpcRequest { jsonrpc: version_tag(), id, method, params }
    }

    /// The request as a JSON object: `jsonrpc`, then `id` if present, then
    /// `method`, then `params` if present.
    pub fn encode(self) -> (r: Json)
        ensures
            field_view(r) == Some(request_fields(self)),
    {
        let ghost req = self;
        let mut out: Vec<(String, Json)> = Vec::new();
        out.push((String::from_str("jsonrpc"), Json::Str(self.jsonrpc)));
        match self.id {
            Some(i) => out.push((String::from_str("id"), i.to_json())),
            None => {},
        }
        out.push((String::from_str("method"), Json::Str(self.method)));
        match self.params {
            Some(p) => out.push((String::from_str("params"), p)),
            None => {},
        }
        assert(fields(out@) =~= request_fields(req));
        Json::Object(out)
    }

    /// Reads a request from a JSON value.
    pub fn decode(j: Json) -> (r: Result<RpcRequest, ParseError>)
        ensures
            r == decode_spec(j),
    {
        let mut entries = match j {
            Json::Object(e) => e,
            _ => return Err(ParseError::NotObject),
        };
        let ghost all = fields(entries@);
        let k_version = String::from_str("jsonrpc");
        let k_id = String::from_str("id");
        let k_method = String::from_str("method");
        let k_params = String::from_str("params");
        let mut version: Option<Json> = None;
        let mut id: Option<Json> = None;
        let mut method: Option<Json> = None;
        let mut params: Option<Json> = None;
        while entries.len() > 0
            invariant
                k_version@ == "jsonrpc"@,
                k_id@ == "id"@,
                k_method@ == "method"@,
                k_params@ == "params"@,
                version is Some ==> version == lookup(all, "jsonrpc"@),
                version is None ==> lookup(all, "jsonrpc"@) == lookup(fields(entries@), "jsonrpc"@),
                id is Some ==> id == lookup(all, "id"@),
                id is None ==> lookup(all, "id"@) == lookup(fields(entries@), "id"@),
                method is Some ==> method == lookup(all, "method"@),
                method is None ==> lookup(all, "method"@) == lookup(fields(entries@), "method"@),
                params is Some ==> params == lookup(all, "params"@),
                params is None ==> lookup(all, "params"@) == lookup(fields(entries@), "params"@),
            decreases entries.len(),
        {
            let ghost before = fields(entries@);
            let (key, value) = entries.pop().unwrap();
            assert(fields(entries@) =~= before.drop_last());
            assert(before.last() == (key@, value));
            proof {
                lemma_member_names_distinct();
            }
            if key == k_version {
                if version.is_none() {
                    version = Some(value);
                }
            } else if key == k_id {
                if id.is_none() {
                    id = Some(value);
                }
            } else if key == k_method {
                if method.is_none() {
                    method = Some(value);
                }
            } else if key == k_params {
                if params.is_none() {
                    params = Some(value);
                }
            }
        }
        let jsonrpc = match version {
            Some(Json::Str(v)) => v,
            _ => return Err(ParseError::BadVersion),
        };
        if !(jsonrpc == version_tag()) {
            return Err(ParseError::BadVersion);
        }
        let method = match method {
            Some(Json::Str(m)) => m,
            _ => return Err(ParseError::BadMethod),
        };
        if method.as_str().is_empty() {
            return Err(ParseError::BadMethod);
        }
        let id = match id {
            None => None,
            Some(Json::UInt(u)) => Some(RpcId::UInt(u)),
            Some(Json::Int(i)) => Some(RpcId::Int(i)),
            Some(Json::Float(n)) => Some(RpcId::Float(n)),
            Some(Json::Str(s)) => Some(RpcId::Str(s)),
            Some(_) => return Err(ParseError::BadId),
        };
        Ok(RpcRequest { jsonrpc, id, method, params })
    }

    /// Parses a request from JSON text.
    pub fn parse(text: &str) -> (r: Result<RpcRequest, ParseError>)
        ensures
            !crate::json::is_json(text@) ==> r == Err::<RpcRequest, ParseError>(ParseError::NotJson),
            crate::json::is_json(text@) ==> exists|j: Json|
                crate::json::reads_as(crate::json::parsed(text@), j, crate::json::MAX_DEPTH as nat)
                    && r == decode_spec(j),
    {
        match Json::parse(text) {
            Some(j) => RpcRequest::decode(j),
            None => Err(ParseError::NotJson),
        }
    }
}

impl RpcResponse {
    /// The response as a JSON object: `jsonrpc`, then each of `id`,
    /// `result` and `error` that is present.
    pub fn encode(self) -> (r: Json)
        ensures
            field_view(r) == Some(response_fields(self)),
    {
        let ghost resp = self;
        let mut out: Vec<(String, Json)> = Vec::new();
        out.push((String::from_str("jsonrpc"), Json::Str(self.jsonrpc)));
        match self.id {
            Some(i) => out.push((String::from_str("id"), i.to_json())),
            None => {},
        }
        match self.result {
            Some(v) => out.push((String::from_str("result"), v)),
            None => {},
        }
        match self.error {
            Some(e) => out.push((String::from_str("error"), e)),
            None => {},
        }
        assert(fields(out@) =~= response_fields(resp));
        Json::Object(out)
    }
}

} // verus!
