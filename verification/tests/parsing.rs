use jrpc_core::convention::Response;
use jrpc_core::parse::parse;
use jrpc_core::value::JsonVal;

#[test]
fn parse_ping_request() {
    let req = parse(br#"{"jsonrpc":"2.0","method":"ping","params":[],"id":1}"#).unwrap();
    assert_eq!(req.jsonrpc, "2.0");
    assert_eq!(req.method, "ping");
    assert!(req.params.is_empty());
    assert!(matches!(req.id, JsonVal::Num(true, 1, 0)));
}

#[test]
fn ping_round_trip_body() {
    let req = parse(br#"{"jsonrpc":"2.0","method":"ping","params":[],"id":1}"#).unwrap();
    let resp = Response::of_outcome(req.id, Ok(JsonVal::Str(String::from("pong"))));
    assert_eq!(resp.dump(), r#"{"jsonrpc":"2.0","result":"pong","id":1}"#);
}

#[test]
fn wrong_version_rejected() {
    let e = parse(br#"{"jsonrpc":"1.0","method":"ping","params":[],"id":1}"#).unwrap_err();
    assert_eq!(e.code, -32600);
    assert_eq!(e.message, "Invalid Request");
    assert!(matches!(e.data, JsonVal::Null));
}

#[test]
fn not_json_rejected() {
    let e = parse(b"not json").unwrap_err();
    assert_eq!(e.code, -32700);
    assert_eq!(e.message, "Parse error");
    assert!(matches!(e.data, JsonVal::Str(_)));
    let resp = Response::of_outcome(JsonVal::Null, Err(e));
    let body = resp.dump();
    assert!(body.starts_with(
        r#"{"jsonrpc":"2.0","result":null,"error":{"code":-32700,"message":"Parse error","data":"#
    ));
    assert!(body.ends_with(r#"},"id":null}"#));
}

#[test]
fn missing_method_rejected() {
    let e = parse(br#"{"jsonrpc":"2.0","params":[],"id":1}"#).unwrap_err();
    assert_eq!(e.code, -32601);
    assert_eq!(e.message, "Method not found");
}

#[test]
fn invalid_utf8_rejected() {
    let e = parse(&[0xff, 0xfe, 0xfd]).unwrap_err();
    assert_eq!(e.code, -32700);
    assert_eq!(e.message, "Parse error");
    assert!(matches!(e.data, JsonVal::Str(_)));
}

#[test]
fn truncated_json_rejected() {
    let e = parse(br#"{"jsonrpc":"#).unwrap_err();
    assert_eq!(e.code, -32700);
    assert_eq!(e.message, "Parse error");
}

#[test]
fn non_object_rejected() {
    for payload in [&b"[]"[..], &br#""x""#[..], &b"5"[..], &b"null"[..], &b"true"[..]] {
        let e = parse(payload).unwrap_err();
        assert_eq!(e.code, -32600);
        assert_eq!(e.message, "Invalid Request");
    }
}

#[test]
fn missing_jsonrpc_rejected() {
    let e = parse(br#"{"method":"ping","params":[],"id":1}"#).unwrap_err();
    assert_eq!(e.code, -32600);
}

#[test]
fn non_string_jsonrpc_rejected() {
    let e = parse(br#"{"jsonrpc":2.0,"method":"ping","params":[],"id":1}"#).unwrap_err();
    assert_eq!(e.code, -32600);
}

#[test]
fn missing_id_rejected() {
    let e = parse(br#"{"jsonrpc":"2.0","method":"ping","params":[]}"#).unwrap_err();
    assert_eq!(e.code, -32600);
}

#[test]
fn null_id_accepted() {
    let req = parse(br#"{"jsonrpc":"2.0","method":"ping","params":[],"id":null}"#).unwrap();
    assert!(matches!(req.id, JsonVal::Null));
}

#[test]
fn non_string_method_rejected_before_params() {
    // both method and params are malformed: the method check must win
    let e = parse(br#"{"jsonrpc":"2.0","method":5,"params":"x","id":1}"#).unwrap_err();
    assert_eq!(e.code, -32601);
    assert_eq!(e.message, "Method not found");
}

#[test]
fn missing_params_rejected() {
    let e = parse(br#"{"jsonrpc":"2.0","method":"ping","id":1}"#).unwrap_err();
    assert_eq!(e.code, -32602);
    assert_eq!(e.message, "Invalid params");
}

#[test]
fn non_array_params_rejected() {
    let e = parse(br#"{"jsonrpc":"2.0","method":"ping","params":{},"id":1}"#).unwrap_err();
    assert_eq!(e.code, -32602);
}

#[test]
fn params_carried_through() {
    let req =
        parse(br#"{"jsonrpc":"2.0","method":"m","params":[1,"two",null,true],"id":0}"#).unwrap();
    assert_eq!(req.params.len(), 4);
    assert!(matches!(req.params[0], JsonVal::Num(true, 1, 0)));
    assert!(matches!(&req.params[1], JsonVal::Str(s) if s == "two"));
    assert!(matches!(req.params[2], JsonVal::Null));
    assert!(matches!(req.params[3], JsonVal::Bool(true)));
}

#[test]
fn nested_params_carried_through() {
    let req = parse(br#"{"jsonrpc":"2.0","method":"m","params":[[1,2],{"k":"v"}],"id":0}"#)
        .unwrap();
    assert_eq!(req.params.len(), 2);
    match &req.params[0] {
        JsonVal::Arr(items) => {
            assert_eq!(items.len(), 2);
            assert!(matches!(items[0], JsonVal::Num(true, 1, 0)));
            assert!(matches!(items[1], JsonVal::Num(true, 2, 0)));
        },
        other => panic!("expected an array, got {:?}", other),
    }
    match &req.params[1] {
        JsonVal::Obj(fields) => {
            assert_eq!(fields.len(), 1);
            assert_eq!(fields[0].0, "k");
            assert!(matches!(&fields[0].1, JsonVal::Str(s) if s == "v"));
        },
        other => panic!("expected an object, got {:?}", other),
    }
}

#[test]
fn long_zero_run_rejected() {
    // a fraction with tens of thousands of zero digits would drive the JSON
    // parser's 16-bit exponent past its floor; the parser must refuse it
    let mut payload: Vec<u8> = Vec::new();
    payload.extend_from_slice(br#"{"jsonrpc":"2.0","method":"m","params":[0."#);
    payload.resize(payload.len() + 40000, b'0');
    payload.extend_from_slice(br#"],"id":1}"#);
    let e = parse(&payload).unwrap_err();
    assert_eq!(e.code, -32700);
    assert_eq!(e.message, "Parse error");
    assert!(
        matches!(&e.data, JsonVal::Str(s) if s == "number holds too long a run of zero digits")
    );
}

#[test]
fn borderline_zero_run_accepted() {
    // one digit short of the refused run length: still parsed as a number
    let mut payload: Vec<u8> = Vec::new();
    payload.extend_from_slice(br#"{"jsonrpc":"2.0","method":"m","params":[0."#);
    payload.resize(payload.len() + 32748, b'0');
    payload.extend_from_slice(br#"],"id":1}"#);
    let req = parse(&payload).unwrap();
    assert!(matches!(req.params[0], JsonVal::Num(true, 0, -32748)));
}

#[test]
fn short_zero_fraction_accepted() {
    let req = parse(br#"{"jsonrpc":"2.0","method":"m","params":[0.000],"id":1}"#).unwrap();
    assert_eq!(req.params.len(), 1);
    assert!(matches!(req.params[0], JsonVal::Num(true, 0, -3)));
}

#[test]
fn json_error_description_attached() {
    let e = parse(b"not json").unwrap_err();
    assert_eq!(e.code, -32700);
    match &e.data {
        JsonVal::Str(s) => assert!(s.contains("Unexpected character")),
        other => panic!("expected a description string, got {:?}", other),
    }
}

#[test]
fn utf8_error_description_attached() {
    let e = parse(&[0x66, 0xff]).unwrap_err();
    assert_eq!(e.code, -32700);
    match &e.data {
        JsonVal::Str(s) => assert!(!s.is_empty()),
        other => panic!("expected a description string, got {:?}", other),
    }
}

#[test]
fn string_id_echoed() {
    let req = parse(br#"{"jsonrpc":"2.0","method":"ping","params":[],"id":"abc-42"}"#).unwrap();
    let resp = Response::of_outcome(req.id, Ok(JsonVal::Null));
    assert_eq!(resp.dump(), r#"{"jsonrpc":"2.0","result":null,"id":"abc-42"}"#);
}

#[test]
fn fractional_id_echoed() {
    let req = parse(br#"{"jsonrpc":"2.0","method":"ping","params":[],"id":-3.5}"#).unwrap();
    assert!(matches!(req.id, JsonVal::Num(false, _, _)));
    let resp = Response::of_outcome(req.id, Ok(JsonVal::Null));
    assert_eq!(resp.dump(), r#"{"jsonrpc":"2.0","result":null,"id":-3.5}"#);
}
