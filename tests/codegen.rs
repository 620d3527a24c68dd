use volo_build::naming::{join_dotted, method_path};
use volo_build::{MethodDesc, MkGrpcBackend, ServiceDesc, VoloGrpcBackend};

fn method(name: &str, input: &str, output: &str, cs: bool, ss: bool) -> MethodDesc {
    MethodDesc {
        name: name.to_string(),
        arg_name: "req".to_string(),
        input_ty: input.to_string(),
        output_ty: output.to_string(),
        client_streaming: cs,
        server_streaming: ss,
    }
}

fn greeter() -> ServiceDesc {
    ServiceDesc {
        name: "Greeter".to_string(),
        package: vec!["helloworld".to_string(), "v1".to_string()],
        methods: vec![
            method("SayHello", "HelloRequest", "HelloReply", false, false),
            method("say_many", "HelloRequest", "HelloReply", true, true),
        ],
    }
}

fn backend() -> VoloGrpcBackend {
    MkGrpcBackend.make_backend()
}

#[test]
fn trait_types_for_both_shapes() {
    let b = backend();
    assert_eq!(b.trait_input_ty("A", false), "::volo_grpc::Request<A>");
    assert_eq!(b.trait_input_ty("A", true), "::volo_grpc::Request<::volo_grpc::RecvStream<A>>");
    assert_eq!(b.trait_output_ty("B", false), "::volo_grpc::Response<B>, ::volo_grpc::Status");
    assert_eq!(
        b.trait_output_ty("B", true),
        "::volo_grpc::Response<::volo_grpc::BoxStream<'static, ::std::result::Result<B, ::volo_grpc::Status>>>, ::volo_grpc::Status"
    );
}

#[test]
fn client_types_for_both_shapes() {
    let b = backend();
    assert_eq!(b.client_input_ty("A", false), "impl ::volo_grpc::IntoRequest<A>");
    assert_eq!(b.client_input_ty("A", true), "impl ::volo_grpc::IntoStreamingRequest<Message = A>");
    assert_eq!(
        b.client_output_ty("B", false),
        "::std::result::Result<::volo_grpc::Response<B>, ::volo_grpc::Status>"
    );
    assert_eq!(
        b.client_output_ty("B", true),
        "::std::result::Result<::volo_grpc::Response<impl ::futures::Stream<Item = ::std::result::Result<B, ::volo_grpc::Status>>>, ::volo_grpc::Status>"
    );
}

#[test]
fn server_call_uses_snake_case_name() {
    assert_eq!(backend().build_server_call("SayHello"), "let resp = inner.say_hello(req).await;\n");
}

#[test]
fn unary_and_streaming_client_request() {
    let b = backend();
    assert!(b.build_client_req(false).contains("::futures::stream::once"));
    assert!(b.build_client_req(true).starts_with("requests.into_streaming_request()"));
}

#[test]
fn client_response_checks_variant_and_merges() {
    let b = backend();
    let unary = b.build_client_resp("GreeterResponseRecv", "SayHello", false);
    assert!(unary.contains("GreeterResponseRecv::SayHello(stream) => stream,"));
    assert!(unary.contains("\"Missing response message.\""));
    assert!(unary.contains("status.metadata_mut().merge(metadata.clone());"));
    assert!(unary.contains("metadata.merge(trailers);"));
    let streaming = b.build_client_resp("GreeterResponseRecv", "SayMany", true);
    assert!(streaming.ends_with("Ok(::volo_grpc::Response::from_parts(metadata, extensions, message_stream))\n"));
    assert!(!streaming.contains("Missing"));
}

#[test]
fn server_request_and_response() {
    let b = backend();
    let unary = b.build_server_req("GreeterRequestRecv", "SayHello", false);
    assert!(unary.contains("\"Missing request message.\""));
    assert!(!unary.contains("metadata_mut"));
    assert!(unary.ends_with("let req = ::volo_grpc::Request::from_parts(metadata, extensions, message);\n"));
    let streaming = b.build_server_req("GreeterRequestRecv", "SayMany", true);
    assert!(streaming.ends_with("let req = ::volo_grpc::Request::from_parts(metadata, extensions, message_stream);\n"));
    assert_eq!(
        b.build_server_resp("GreeterResponseSend", "SayMany", true),
        "resp.map(|r| r.map(|s| GreeterResponseSend::SayMany(s)))\n"
    );
    assert!(b
        .build_server_resp("GreeterResponseSend", "SayHello", false)
        .contains("GreeterResponseSend::SayHello(::std::boxed::Box::pin(::futures::stream::once(::futures::future::ok(m))))"));
}

#[test]
fn trait_method_signature() {
    let b = backend();
    let m = method("SayHello", "HelloRequest", "HelloReply", false, true);
    assert_eq!(
        b.codegen_service_method(&m),
        "async fn say_hello(&self, req: ::volo_grpc::Request<HelloRequest>) -> ::std::result::Result<::volo_grpc::Response<::volo_grpc::BoxStream<'static, ::std::result::Result<HelloReply, ::volo_grpc::Status>>>, ::volo_grpc::Status>;\n"
    );
}

#[test]
fn service_impl_has_envelopes_client_and_server() {
    let b = backend();
    let mut out = String::from("// head\n");
    b.codegen_service_impl(&mut out, &greeter());
    assert!(out.starts_with("// head\npub enum GreeterRequestSend {\n"));
    for name in ["GreeterRequestSend", "GreeterRequestRecv", "GreeterResponseSend", "GreeterResponseRecv"] {
        assert_eq!(out.matches(&format!("pub enum {} {{", name)).count(), 1);
    }
    assert_eq!(out.matches("Some(\"/helloworld.v1.Greeter/SayHello\") => Ok(Self::SayHello(").count(), 2);
    assert_eq!(out.matches("Some(\"/helloworld.v1.Greeter/say_many\") => Ok(Self::SayMany(").count(), 2);
    assert!(out.contains("SayMany(::volo_grpc::RecvStream<HelloRequest>),\n"));
    assert!(out.contains("SayMany(::volo_grpc::RecvStream<HelloReply>),\n"));
    assert!(out.contains("pub struct GreeterClientBuilder {}"));
    assert!(out.contains("pub async fn say_many(\n&mut self,"));
    assert!(out.contains(".call(\"/helloworld.v1.Greeter/SayHello\", req)"));
    assert!(out.contains("pub struct GreeterServer<S>"));
    assert!(out.contains("S: Greeter + ::core::marker::Send"));
    assert!(out.contains("\"/helloworld.v1.Greeter/say_many\" => {\n"));
    assert!(out.contains("Unimplemented http path: {}"));
}

#[test]
fn service_impl_without_methods() {
    let b = backend();
    let s = ServiceDesc { name: "empty_svc".to_string(), package: vec![], methods: vec![] };
    let mut out = String::new();
    b.codegen_service_impl(&mut out, &s);
    assert!(out.starts_with("pub enum EmptySvcRequestSend {\n}\n"));
    assert!(out.contains("match method {\n_ => Err("));
}

#[test]
fn dotted_package_and_paths() {
    assert_eq!(join_dotted(&vec!["a".to_string(), "b".to_string(), "c".to_string()]), "a.b.c");
    assert_eq!(join_dotted(&vec![]), "");
    assert_eq!(method_path(&vec!["helloworld".to_string()], "Greeter", "SayHello"), "/helloworld.Greeter/SayHello");
    assert_eq!(method_path(&vec![], "Greeter", "SayHello"), "/.Greeter/SayHello");
}
