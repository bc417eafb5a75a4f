use std::cell::Cell;

use wry_rpc::client::{CallError, Correlator, Settlement};
use wry_rpc::dispatch::{resolution_script, settle, JsonRpc, CLIENT_SCRIPT};
use wry_rpc::json::Json;
use wry_rpc::message::{internal_error, ParseError, Outcome, RpcId, RpcRequest, RpcResponse};

fn text(s: &str) -> Json {
    Json::Str(s.to_string())
}

fn object(members: Vec<(&str, Json)>) -> Json {
    Json::Object(members.into_iter().map(|(k, v)| (k.to_string(), v)).collect())
}

fn field<'a>(j: &'a Json, key: &str) -> Option<&'a Json> {
    match j {
        Json::Object(e) => e.iter().rev().find(|(k, _)| k == key).map(|(_, v)| v),
        _ => None,
    }
}

fn call_id(req: &RpcRequest) -> u32 {
    match req.id {
        Some(RpcId::UInt(u)) => u as u32,
        _ => panic!("a call carries a numeric id"),
    }
}

#[test]
fn json_text_round_trip() {
    let v = object(vec![
        ("a", Json::UInt(1)),
        ("b", Json::Array(vec![Json::Int(-2), Json::Bool(true), Json::Null])),
        ("c", text("x\"y")),
    ]);
    let t = v.to_text();
    assert_eq!(t, "{\"a\":1,\"b\":[-2,true,null],\"c\":\"x\\\"y\"}");
    let back = Json::parse(&t).unwrap();
    assert_eq!(back.to_text(), t);
}

#[test]
fn json_parse_reads_structure() {
    match Json::parse("[1, \"two\", 3.5]").unwrap() {
        Json::Array(items) => {
            assert_eq!(items.len(), 3);
            assert!(matches!(items[0], Json::UInt(1)));
            assert!(matches!(&items[1], Json::Str(s) if s == "two"));
            assert!(matches!(items[2], Json::Float(_)));
        }
        other => panic!("not an array: {:?}", other),
    }
}

#[test]
fn json_parse_rejects_malformed() {
    assert!(Json::parse("{\"jsonrpc\": \"2.0\", \"method\"").is_none());
    assert!(Json::parse("").is_none());
}

#[test]
fn request_encode_decode_round_trip() {
    let req = RpcRequest::new(Some(RpcId::UInt(7)), "add".to_string(), Some(Json::Array(vec![Json::UInt(1), Json::UInt(2)])));
    let j = req.encode();
    assert_eq!(j.to_text(), "{\"id\":7,\"jsonrpc\":\"2.0\",\"method\":\"add\",\"params\":[1,2]}");
    let back = RpcRequest::decode(j).unwrap();
    assert_eq!(back.jsonrpc, "2.0");
    assert!(matches!(back.id, Some(RpcId::UInt(7))));
    assert_eq!(back.method, "add");
    assert_eq!(back.params.unwrap().to_text(), "[1,2]");
}

#[test]
fn notification_round_trip_keeps_id_absent() {
    let req = RpcRequest::new(None, "log".to_string(), None);
    let t = req.encode().to_text();
    assert_eq!(t, "{\"jsonrpc\":\"2.0\",\"method\":\"log\"}");
    let back = RpcRequest::parse(&t).unwrap();
    assert!(back.id.is_none());
    assert!(back.params.is_none());
}

#[test]
fn string_id_and_empty_string_id_are_present() {
    let back = RpcRequest::parse("{\"jsonrpc\":\"2.0\",\"id\":\"\",\"method\":\"m\"}").unwrap();
    assert!(matches!(&back.id, Some(RpcId::Str(s)) if s.is_empty()));
}

#[test]
fn decode_errors() {
    assert_eq!(RpcRequest::parse("{\"jsonrpc\":\"2.0\",").err(), Some(ParseError::NotJson));
    assert_eq!(RpcRequest::parse("[1]").err(), Some(ParseError::NotObject));
    assert_eq!(RpcRequest::parse("{\"method\":\"m\"}").err(), Some(ParseError::BadVersion));
    assert_eq!(RpcRequest::parse("{\"jsonrpc\":\"1.0\",\"method\":\"m\"}").err(), Some(ParseError::BadVersion));
    assert_eq!(RpcRequest::parse("{\"jsonrpc\":\"2.0\"}").err(), Some(ParseError::BadMethod));
    assert_eq!(RpcRequest::parse("{\"jsonrpc\":\"2.0\",\"method\":\"\"}").err(), Some(ParseError::BadMethod));
    assert_eq!(RpcRequest::parse("{\"jsonrpc\":\"2.0\",\"method\":7}").err(), Some(ParseError::BadMethod));
    assert_eq!(RpcRequest::parse("{\"jsonrpc\":\"2.0\",\"method\":\"m\",\"id\":null}").err(), Some(ParseError::BadId));
    assert_eq!(RpcRequest::parse("{\"jsonrpc\":\"2.0\",\"method\":\"m\",\"id\":[1]}").err(), Some(ParseError::BadId));
}

#[test]
fn call_records_fresh_ids() {
    let mut c = Correlator::new();
    let a = c.call("one".to_string(), vec![]).unwrap();
    let b = c.call("two".to_string(), vec![]).unwrap();
    let (ia, ib) = (call_id(&a), call_id(&b));
    assert_ne!(ia, ib);
    assert!(c.is_pending(ia));
    assert!(c.is_pending(ib));
    assert_eq!(a.jsonrpc, "2.0");
    assert_eq!(a.method, "one");
    assert!(matches!(a.params, Some(Json::Array(ref p)) if p.is_empty()));
}

#[test]
fn call_with_taken_id_is_refused() {
    let mut c = Correlator::new();
    assert!(c.call_with_id(5, "a".to_string(), vec![]).is_some());
    assert!(c.call_with_id(5, "b".to_string(), vec![]).is_none());
    assert!(c.is_pending(5));
    assert!(matches!(c.deliver_result(&RpcId::UInt(5), Json::Null), Some(Settlement::Fulfilled { id: 5, .. })));
    assert!(!c.is_pending(5));
    let _ = CallError::NoFreeId;
}

#[test]
fn second_delivery_is_a_no_op() {
    let mut c = Correlator::new();
    c.call_with_id(9, "m".to_string(), vec![]).unwrap();
    assert!(c.deliver_result(&RpcId::UInt(9), text("first")).is_some());
    assert!(c.deliver_result(&RpcId::UInt(9), text("second")).is_none());
    assert!(c.deliver_error(&RpcId::UInt(9), text("late")).is_none());
}

#[test]
fn unknown_ids_are_ignored() {
    let mut c = Correlator::new();
    c.call_with_id(1, "m".to_string(), vec![]).unwrap();
    assert!(c.deliver_result(&RpcId::UInt(2), Json::Null).is_none());
    assert!(c.deliver_result(&RpcId::Str("1".to_string()), Json::Null).is_none());
    assert!(c.deliver_result(&RpcId::UInt(1 + (1u64 << 32)), Json::Null).is_none());
    assert!(c.is_pending(1));
}

#[test]
fn out_of_order_replies_settle_their_own_calls() {
    let mut c = Correlator::new();
    c.call_with_id(10, "a".to_string(), vec![]).unwrap();
    c.call_with_id(20, "b".to_string(), vec![]).unwrap();
    match c.deliver_result(&RpcId::UInt(20), text("for b")) {
        Some(Settlement::Fulfilled { id: 20, value: Json::Str(s) }) => assert_eq!(s, "for b"),
        other => panic!("{:?}", other),
    }
    assert!(c.is_pending(10));
    match c.deliver_error(&RpcId::UInt(10), text("for a")) {
        Some(Settlement::Rejected { id: 10, error: Json::Str(s) }) => assert_eq!(s, "for a"),
        other => panic!("{:?}", other),
    }
    assert!(!c.is_pending(10));
    assert!(!c.is_pending(20));
}

#[test]
fn status_convention() {
    let mut c = Correlator::new();
    c.call_with_id(1, "m".to_string(), vec![]).unwrap();
    c.call_with_id(2, "m".to_string(), vec![]).unwrap();
    assert!(matches!(c.deliver_status(&RpcId::UInt(1), 200, text("ok")), Some(Settlement::Fulfilled { id: 1, value: Json::Str(_) })));
    match c.deliver_status(&RpcId::UInt(2), 404, text("missing")) {
        Some(Settlement::Rejected { id: 2, error }) => assert_eq!(error.to_text(), "{\"code\":404,\"data\":\"missing\"}"),
        other => panic!("{:?}", other),
    }
}

#[test]
fn settle_forces_request_id_and_checks_response_shape() {
    let mut resp = RpcResponse::success(text("v"));
    resp.id = Some(RpcId::UInt(99));
    let reply = settle(Some(RpcId::UInt(3)), Some(resp)).unwrap();
    assert!(matches!(reply.id, RpcId::UInt(3)));
    assert!(matches!(reply.outcome, Outcome::Value(_)));

    let both = RpcResponse { jsonrpc: "2.0".to_string(), id: None, result: Some(Json::Null), error: Some(Json::Null) };
    assert!(matches!(settle(Some(RpcId::UInt(3)), Some(both)).unwrap().outcome, Outcome::Malformed));
    let neither = RpcResponse { jsonrpc: "2.0".to_string(), id: None, result: None, error: None };
    let reply = settle(Some(RpcId::UInt(4)), Some(neither)).unwrap();
    assert_eq!(reply.script(), "window.external.rpc._error(4, {\"code\":-32603,\"message\":\"Internal error\"})");

    assert!(settle(None, Some(RpcResponse::success(Json::Null))).is_none());
    assert!(settle(Some(RpcId::UInt(5)), None).is_none());
}

#[test]
fn internal_error_text() {
    assert_eq!(internal_error().to_text(), "{\"code\":-32603,\"message\":\"Internal error\"}");
}

#[test]
fn resolution_script_text() {
    assert_eq!(resolution_script(false, "12", "\"pong\""), "window.external.rpc._result(12, \"pong\")");
    assert_eq!(resolution_script(true, "\"a\"", "null"), "window.external.rpc._error(\"a\", null)");
}

#[test]
fn build_installs_client_only_with_handler() {
    let bare: JsonRpc<fn(RpcRequest) -> Option<RpcResponse>> = JsonRpc::new();
    assert!(bare.build().is_none());
    assert!(bare.on_message("{\"jsonrpc\":\"2.0\",\"id\":1,\"method\":\"m\"}").is_none());
    let rpc = JsonRpc::new().with_rpc_handler(|_r: RpcRequest| None);
    assert_eq!(rpc.build().unwrap(), CLIENT_SCRIPT);
    assert!(CLIENT_SCRIPT.contains("this._result"));
}

#[test]
fn scenario_ping_fulfills_with_pong() {
    let mut c = Correlator::new();
    let req = c.call("ping".to_string(), vec![]).unwrap();
    let id = call_id(&req);
    let raw = req.encode().to_text();
    let rpc = JsonRpc::new().with_rpc_handler(|r: RpcRequest| {
        assert_eq!(r.method, "ping");
        Some(RpcResponse::success(text("pong")))
    });
    let script = rpc.on_message(&raw).unwrap();
    assert_eq!(script, format!("window.external.rpc._result({}, \"pong\")", id));

    let reply = rpc.dispatch(RpcRequest::parse(&raw).unwrap()).unwrap();
    match c.deliver(reply) {
        Some(Settlement::Fulfilled { id: got, value: Json::Str(s) }) => {
            assert_eq!(got, id);
            assert_eq!(s, "pong");
        }
        other => panic!("{:?}", other),
    }
    assert!(!c.is_pending(id));
}

#[test]
fn scenario_boom_rejects_with_error() {
    let mut c = Correlator::new();
    let req = c.call("boom".to_string(), vec![]).unwrap();
    let id = call_id(&req);
    let raw = req.encode().to_text();
    let rpc = JsonRpc::new().with_rpc_handler(|_r: RpcRequest| {
        Some(RpcResponse::failure(object(vec![("code", Json::UInt(1)), ("message", text("bad"))])))
    });
    let script = rpc.on_message(&raw).unwrap();
    assert_eq!(script, format!("window.external.rpc._error({}, {{\"code\":1,\"message\":\"bad\"}})", id));

    let reply = rpc.dispatch(RpcRequest::parse(&raw).unwrap()).unwrap();
    match c.deliver(reply) {
        Some(Settlement::Rejected { id: got, error }) => {
            assert_eq!(got, id);
            assert!(matches!(field(&error, "code"), Some(Json::UInt(1))));
            assert!(matches!(field(&error, "message"), Some(Json::Str(s)) if s == "bad"));
        }
        other => panic!("{:?}", other),
    }
}

#[test]
fn scenario_notify_sends_nothing_back() {
    let c = Correlator::new();
    let req = c.notify("log".to_string(), vec![text("hi")]);
    assert!(req.id.is_none());
    let raw = req.encode().to_text();
    assert_eq!(raw, "{\"jsonrpc\":\"2.0\",\"method\":\"log\",\"params\":[\"hi\"]}");
    let calls = Cell::new(0u32);
    let rpc = JsonRpc::new().with_rpc_handler(|r: RpcRequest| {
        calls.set(calls.get() + 1);
        assert!(r.id.is_none());
        assert_eq!(r.method, "log");
        assert_eq!(r.params.as_ref().unwrap().to_text(), "[\"hi\"]");
        Some(RpcResponse::success(text("ignored")))
    });
    assert!(rpc.on_message(&raw).is_none());
    assert_eq!(calls.get(), 1);
}

#[test]
fn scenario_malformed_message_is_dropped() {
    let calls = Cell::new(0u32);
    let rpc = JsonRpc::new().with_rpc_handler(|_r: RpcRequest| {
        calls.set(calls.get() + 1);
        Some(RpcResponse::success(Json::Null))
    });
    assert!(rpc.on_message("{\"jsonrpc\":\"2.0\",\"id\":1,\"meth").is_none());
    assert!(rpc.on_message("{\"jsonrpc\":\"2.0\",\"id\":1}").is_none());
    assert_eq!(calls.get(), 0);
}

#[test]
fn handler_without_response_leaves_call_waiting() {
    let mut c = Correlator::new();
    let req = c.call("quiet".to_string(), vec![]).unwrap();
    let id = call_id(&req);
    let rpc = JsonRpc::new().with_rpc_handler(|_r: RpcRequest| None);
    assert!(rpc.on_message(&req.encode().to_text()).is_none());
    assert!(c.is_pending(id));
}

#[test]
fn response_encoding() {
    let mut resp = RpcResponse::success(text("pong"));
    resp.id = Some(RpcId::UInt(3));
    assert_eq!(resp.encode().to_text(), "{\"id\":3,\"jsonrpc\":\"2.0\",\"result\":\"pong\"}");
    let err = RpcResponse::failure(Json::Int(-1));
    assert_eq!(err.encode().to_text(), "{\"error\":-1,\"jsonrpc\":\"2.0\"}");
}

#[test]
fn undecodable_requests_get_no_script() {
    let calls = Cell::new(0u32);
    let rpc = JsonRpc::new().with_rpc_handler(|_r: RpcRequest| {
        calls.set(calls.get() + 1);
        Some(RpcResponse::success(Json::Null))
    });
    assert!(rpc.on_message("[1, 2]").is_none());
    assert!(rpc.on_message("{\"jsonrpc\":\"1.0\",\"id\":1,\"method\":\"m\"}").is_none());
    assert!(rpc.on_message("{\"jsonrpc\":\"2.0\",\"id\":1,\"method\":\"\"}").is_none());
    assert!(rpc.on_message("{\"jsonrpc\":\"2.0\",\"id\":true,\"method\":\"m\"}").is_none());
    assert_eq!(calls.get(), 0);
}

#[test]
fn call_on_empty_table_succeeds() {
    let mut c = Correlator::new();
    let req = c.call("m".to_string(), vec![Json::UInt(1)]).unwrap();
    assert!(c.is_pending(call_id(&req)));
}

#[test]
fn string_id_is_echoed_in_script() {
    let rpc = JsonRpc::new().with_rpc_handler(|_r: RpcRequest| Some(RpcResponse::success(Json::UInt(5))));
    let s = rpc.on_message("{\"jsonrpc\":\"2.0\",\"id\":\"abc\",\"method\":\"m\"}").unwrap();
    assert_eq!(s, "window.external.rpc._result(\"abc\", 5)");
}
