use server_fn_put::codec::{ContentType, Decodes, Encodes, Encoding, Put};
use server_fn_put::error::{into_app_error, ServerFnErrorErr};
use server_fn_put::strategy::{Octets, Text};
use server_fn_put::transport::{Request, Response};

type TextPut = Put<Text>;
type OctetPut = Put<Octets>;

#[test]
fn put_request_carries_method_path_headers_and_body() {
    let v = String::from(r#"{"id":7,"name":"widget"}"#);
    let req = TextPut::into_req::<String, ServerFnErrorErr>(v.clone(), "/api/widget", "application/json")
        .unwrap();
    assert_eq!(req.method(), "PUT");
    assert_eq!(req.path(), "/api/widget");
    assert_eq!(req.accepts(), "application/json");
    assert_eq!(req.content_type(), "text/plain; charset=utf-8");
    assert_eq!(req.body().as_slice(), br#"{"id":7,"name":"widget"}"#);
    let back = TextPut::from_req::<String, ServerFnErrorErr>(req).unwrap();
    assert_eq!(back, v);
}

#[test]
fn text_request_round_trip_keeps_non_ascii() {
    let v = String::from("grüße, 世界 🎉");
    let req = TextPut::into_req::<String, ServerFnErrorErr>(v.clone(), "/greet", "text/plain").unwrap();
    assert_eq!(req.body().as_slice(), v.as_bytes());
    let back = TextPut::from_req::<String, ServerFnErrorErr>(req).unwrap();
    assert_eq!(back, v);
}

#[test]
fn text_response_round_trip() {
    let v = String::from("result: 42");
    let res = TextPut::into_res::<String, ServerFnErrorErr>(v.clone()).unwrap();
    assert_eq!(res.content_type(), "text/plain; charset=utf-8");
    assert_eq!(res.body().as_slice(), b"result: 42");
    let back = TextPut::from_res::<String, ServerFnErrorErr>(res).unwrap();
    assert_eq!(back, v);
}

#[test]
fn empty_text_round_trips_through_empty_body() {
    let req = TextPut::into_req::<String, ServerFnErrorErr>(String::new(), "/", "*/*").unwrap();
    assert!(req.body().is_empty());
    assert_eq!(TextPut::from_req::<String, ServerFnErrorErr>(req).unwrap(), "");
    let res = TextPut::into_res::<String, ServerFnErrorErr>(String::new()).unwrap();
    assert!(res.body().is_empty());
    assert_eq!(TextPut::from_res::<String, ServerFnErrorErr>(res).unwrap(), "");
}

#[test]
fn octet_request_and_response_round_trip() {
    let v: Vec<u8> = vec![0, 255, 7, 128, 10];
    let req = OctetPut::into_req::<Vec<u8>, ServerFnErrorErr>(v.clone(), "/blob", "application/octet-stream")
        .unwrap();
    assert_eq!(req.method(), "PUT");
    assert_eq!(req.content_type(), "application/octet-stream");
    assert_eq!(req.body(), &v);
    assert_eq!(OctetPut::from_req::<Vec<u8>, ServerFnErrorErr>(req).unwrap(), v);
    let res = OctetPut::into_res::<Vec<u8>, ServerFnErrorErr>(v.clone()).unwrap();
    assert_eq!(res.content_type(), "application/octet-stream");
    assert_eq!(OctetPut::from_res::<Vec<u8>, ServerFnErrorErr>(res).unwrap(), v);
}

#[test]
fn content_type_is_the_inner_strategys() {
    assert_eq!(TextPut::content_type(), Text::content_type());
    assert_eq!(OctetPut::content_type(), Octets::content_type());
    assert_eq!(Text::content_type(), "text/plain; charset=utf-8");
    assert_eq!(Octets::content_type(), "application/octet-stream");
}

#[test]
fn method_is_put_for_every_strategy() {
    assert_eq!(TextPut::method(), "PUT");
    assert_eq!(OctetPut::method(), "PUT");
    let a = TextPut::into_req::<String, ServerFnErrorErr>(String::from("x"), "/a", "b").unwrap();
    let b = OctetPut::into_req::<Vec<u8>, ServerFnErrorErr>(vec![1], "/a", "b").unwrap();
    assert_eq!(a.method(), b.method());
}

#[test]
fn encode_failure_becomes_serialization_error() {
    let why = String::from("key must be a string");
    let r = TextPut::request_from_encoded::<ServerFnErrorErr>(Err(why.clone()), "/api/widget", "application/json");
    assert_eq!(r.unwrap_err(), ServerFnErrorErr::Serialization(why.clone()));
    let r = TextPut::response_from_encoded::<ServerFnErrorErr>(Err(why.clone()));
    let e = r.unwrap_err();
    assert_eq!(e, ServerFnErrorErr::Serialization(why.clone()));
    assert!(e.text().contains("key must be a string"));
}

#[test]
fn encoded_bytes_become_the_body() {
    let r = TextPut::request_from_encoded::<ServerFnErrorErr>(Ok(vec![1, 2, 3]), "/p", "a/b").unwrap();
    assert_eq!(r.body().as_slice(), &[1, 2, 3]);
    assert_eq!(r.path(), "/p");
    assert_eq!(r.accepts(), "a/b");
    let r = OctetPut::response_from_encoded::<ServerFnErrorErr>(Ok(vec![9])).unwrap();
    assert_eq!(r.body().as_slice(), &[9]);
    assert_eq!(r.content_type(), "application/octet-stream");
}

#[test]
fn decode_failure_becomes_deserialization_error() {
    let req = Request::new_bytes("PUT", "/api/widget", "text/plain", "text/plain", vec![b'o', b'k', 0xff]);
    let e = TextPut::from_req::<String, ServerFnErrorErr>(req).unwrap_err();
    match &e {
        ServerFnErrorErr::Deserialization(text) => {
            assert!(text.contains("invalid utf-8"), "{}", text);
            assert!(text.contains("index 2"), "{}", text);
        }
        other => panic!("expected a deserialization error, got {:?}", other),
    }
    let res = Response::from_bytes("text/plain", vec![0xc3]);
    let e = TextPut::from_res::<String, ServerFnErrorErr>(res).unwrap_err();
    assert!(matches!(e, ServerFnErrorErr::Deserialization(_)));
}

#[test]
fn transport_failure_passes_through_unchanged() {
    let failure = ServerFnErrorErr::Request(String::from("connection reset"));
    let r = TextPut::from_bytes_result::<String, ServerFnErrorErr>(Err(failure.clone()));
    assert_eq!(r.unwrap_err(), failure);
    let failure = ServerFnErrorErr::Response(String::from("body truncated"));
    let r = OctetPut::from_bytes_result::<Vec<u8>, ServerFnErrorErr>(Err(failure.clone()));
    assert_eq!(r.unwrap_err(), failure);
}

#[test]
fn drained_bytes_are_decoded() {
    let r = TextPut::from_bytes_result::<String, ServerFnErrorErr>(Ok(b"abc".to_vec()));
    assert_eq!(r.unwrap(), "abc");
    let r = TextPut::from_bytes_result::<String, ServerFnErrorErr>(Ok(vec![0x80]));
    assert!(matches!(r, Err(ServerFnErrorErr::Deserialization(_))));
}

#[test]
fn text_strategy_encodes_utf8_and_rejects_bad_bytes() {
    assert_eq!(Text::encode(String::from("é")).unwrap(), vec![0xc3, 0xa9]);
    assert_eq!(Text::decode(vec![0xc3, 0xa9]).unwrap(), "é");
    assert!(Text::decode(vec![0xc3]).is_err());
    assert_eq!(Octets::encode(vec![4, 5]).unwrap(), vec![4, 5]);
    assert_eq!(Octets::decode(vec![6]).unwrap(), vec![6]);
}

#[test]
fn app_error_keeps_the_failure() {
    let e: ServerFnErrorErr = into_app_error(ServerFnErrorErr::Deserialization(String::from("bad")));
    assert_eq!(e, ServerFnErrorErr::Deserialization(String::from("bad")));
    assert_eq!(e.text(), "bad");
}
