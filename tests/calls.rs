use volo_build::call::{
    decode_variant, method_paths, open_envelope, pass_stream, recv_request, recv_response, route,
    send_all, send_one, Code, Envelope, Header, MessageStream, Status,
};
use volo_build::{MethodDesc, ServiceDesc};

fn method(name: &str) -> MethodDesc {
    MethodDesc {
        name: name.to_string(),
        arg_name: "req".to_string(),
        input_ty: "In".to_string(),
        output_ty: "Out".to_string(),
        client_streaming: false,
        server_streaming: false,
    }
}

fn service() -> ServiceDesc {
    ServiceDesc {
        name: "Echo".to_string(),
        package: vec!["pkg".to_string(), "sub".to_string()],
        methods: vec![method("Unary"), method("Stream"), method("Other")],
    }
}

fn h(k: &str, v: &str) -> Header {
    (k.to_string(), v.to_string())
}

fn err(code: Code, msg: &str) -> Status {
    Status { code, message: msg.to_string(), metadata: vec![h("e", "1")] }
}

#[test]
fn paths_follow_the_wire_form() {
    let p = method_paths(&service());
    assert_eq!(p, vec!["/pkg.sub.Echo/Unary", "/pkg.sub.Echo/Stream", "/pkg.sub.Echo/Other"]);
}

#[test]
fn decode_each_path_to_its_variant() {
    let s = service();
    for (i, p) in method_paths(&s).iter().enumerate() {
        assert!(matches!(decode_variant(&s, Some(p.as_str())), Ok(j) if j == i));
    }
}

#[test]
fn decode_unknown_or_missing_path() {
    let s = service();
    for m in [Some("/pkg.sub.Echo/Nope"), Some("/pkg.Echo/Unary"), None] {
        let e = decode_variant(&s, m).err().unwrap();
        assert_eq!(e.code, Code::Unimplemented);
        assert_eq!(e.message, "Method not found.");
    }
}

#[test]
fn route_known_and_unknown() {
    let s = service();
    assert!(matches!(route(&s, "/pkg.sub.Echo/Other"), Ok(2)));
    let e = route(&s, "/x.Y/Z").err().unwrap();
    assert_eq!(e.code, Code::Unimplemented);
    assert_eq!(e.message, "Unimplemented http path: /x.Y/Z");
    assert!(e.message.contains("/x.Y/Z"));
}

#[test]
fn unary_round_trip_delivers_the_message_once() {
    let stream = MessageStream { items: send_one(42u32), trailers: Ok(None) };
    let env = Envelope { variant: 0, stream };
    let stream = open_envelope(0, env).ok().unwrap();
    let parts = recv_request(vec![h("a", "1")], stream).ok().unwrap();
    assert_eq!(parts.message, 42);
    assert_eq!(parts.metadata, vec![h("a", "1")]);
}

#[test]
fn streaming_round_trip_keeps_order_and_count() {
    let sent = send_all(vec![1u8, 2, 3, 4]);
    let server = pass_stream(vec![], MessageStream { items: sent, trailers: Ok(None) });
    let back = pass_stream(vec![h("x", "y")], server.message);
    let got: Vec<u8> = back.message.items.into_iter().map(|r| r.ok().unwrap()).collect();
    assert_eq!(got, vec![1, 2, 3, 4]);
    assert!(send_all(Vec::<u8>::new()).is_empty());
}

#[test]
fn envelope_of_another_variant_is_refused() {
    let env = Envelope { variant: 1, stream: MessageStream { items: send_one(1u8), trailers: Ok(None) } };
    let e = open_envelope(0, env).err().unwrap();
    assert_eq!(e.code, Code::Unimplemented);
    assert_eq!(e.message, "Method not found.");
}

#[test]
fn missing_request_message() {
    let e = recv_request::<u8>(vec![], MessageStream { items: vec![], trailers: Ok(None) }).err().unwrap();
    assert_eq!(e.code, Code::Internal);
    assert_eq!(e.message, "Missing request message.");
}

#[test]
fn missing_response_message() {
    let e = recv_response::<u8>(vec![h("a", "1")], MessageStream { items: vec![], trailers: Ok(None) })
        .err()
        .unwrap();
    assert_eq!(e.code, Code::Internal);
    assert_eq!(e.message, "Missing response message.");
    assert!(e.metadata.is_empty());
}

#[test]
fn trailers_are_merged_after_leading_metadata() {
    let stream = MessageStream { items: vec![Ok(7u8), Ok(8u8)], trailers: Ok(Some(vec![h("t", "2")])) };
    let parts = recv_response(vec![h("a", "1")], stream).ok().unwrap();
    assert_eq!(parts.message, 7);
    assert_eq!(parts.metadata, vec![h("a", "1"), h("t", "2")]);
    let stream = MessageStream { items: vec![Ok(7u8)], trailers: Ok(Some(vec![h("t", "2")])) };
    let parts = recv_request(vec![h("a", "1")], stream).ok().unwrap();
    assert_eq!(parts.metadata, vec![h("a", "1"), h("t", "2")]);
}

#[test]
fn stream_error_on_client_gets_leading_metadata() {
    let stream = MessageStream { items: vec![Err(err(Code::Unavailable, "down")), Ok(1u8)], trailers: Ok(None) };
    let e = recv_response(vec![h("a", "1")], stream).err().unwrap();
    assert_eq!(e.code, Code::Unavailable);
    assert_eq!(e.message, "down");
    assert_eq!(e.metadata, vec![h("e", "1"), h("a", "1")]);
}

#[test]
fn stream_error_on_server_is_kept_as_it_is() {
    let stream = MessageStream { items: vec![Err(err(Code::DataLoss, "bad")), Ok(1u8)], trailers: Ok(None) };
    let e = recv_request(vec![h("a", "1")], stream).err().unwrap();
    assert_eq!(e.code, Code::DataLoss);
    assert_eq!(e.metadata, vec![h("e", "1")]);
}

#[test]
fn trailer_error_is_propagated() {
    let stream = MessageStream { items: vec![Ok(1u8)], trailers: Err(err(Code::Internal, "trailers")) };
    let e = recv_response(vec![h("a", "1")], stream).err().unwrap();
    assert_eq!(e.message, "trailers");
    assert_eq!(e.metadata, vec![h("e", "1")]);
}
