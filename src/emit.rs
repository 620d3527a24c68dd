use vstd::prelude::*;
use vstd::string::*;
use crate::glue::{client_req_text, client_resp_text, server_call_text, server_req_text, server_resp_text};
use crate::model::{MethodDesc, ServiceDesc};
use crate::naming::{camel_of, dotted, join_dotted, snake_case, snake_of, upper_camel_case, views};
use crate::types::{client_input_text, client_output_text, trait_input_text, trait_output_text};

verus! {

/// Makes the gRPC back end.
pub struct MkGrpcBackend;

/// The gRPC back end: writes the code of a service's methods and of its
/// envelopes, client and server.
pub struct VoloGrpcBackend;

impl MkGrpcBackend {
    pub fn make_backend(self) -> (r: VoloGrpcBackend) {
        VoloGrpcBackend
    }
}

/// The per-method pieces of the code of a service, one of each per method.
#[derive(Clone, Copy)]
pub enum Piece {
    /// A variant of an outbound envelope (`true`: of the requests).
    SendVariant(bool),
    /// A variant of an inbound envelope (`true`: of the requests).
    RecvVariant(bool),
    /// An arm that encodes an outbound envelope's stream.
    EncodeArm,
    /// An arm from a method's path to its inbound envelope variant.
    DecodeArm,
    /// A method of the client.
    ClientMethod,
    /// An arm of the server's router.
    ServerArm,
}

/// The name of a generated type: the service name `svc` and a suffix.
pub open spec fn suffixed(svc: Seq<char>, suffix: Seq<char>) -> Seq<char> {
    svc + suffix
}

/// The piece `p` of method `m` in the service whose upper camel name is
/// `svc` and whose paths start with `prefix`.
pub open spec fn piece_text(svc: Seq<char>, prefix: Seq<char>, m: MethodDesc, p: Piece) -> Seq<char> {
    match p {
        Piece::SendVariant(req) => camel_of(m.name@)
            + "(::volo_grpc::BoxStream<'static, ::std::result::Result<"@
            + (if req { m.input_ty@ } else { m.output_ty@ }) + ", ::volo_grpc::Status>>),\n"@,
        Piece::RecvVariant(req) => camel_of(m.name@) + "(::volo_grpc::RecvStream<"@
            + (if req { m.input_ty@ } else { m.output_ty@ }) + ">),\n"@,
        Piece::EncodeArm => "Self::"@ + camel_of(m.name@) + "(s) => ::volo_grpc::codec::encode::encode(s),\n"@,
        Piece::DecodeArm => "Some(\""@ + (prefix + m.name@) + "\") => Ok(Self::"@ + camel_of(m.name@)
            + "(::volo_grpc::RecvStream::new(body, kind))),\n"@,
        Piece::ClientMethod => client_method_text(svc, prefix + m.name@, m),
        Piece::ServerArm => server_arm_text(svc, prefix + m.name@, m),
    }
}

/// The pieces `p` of the methods `ms`, in order.
pub open spec fn pieces_text(svc: Seq<char>, prefix: Seq<char>, ms: Seq<MethodDesc>, p: Piece) -> Seq<char>
    decreases ms.len(),
{
    if ms.len() == 0 {
        Seq::empty()
    } else {
        pieces_text(svc, prefix, ms.drop_last(), p) + piece_text(svc, prefix, ms.last(), p)
    }
}

/// The start of every path of service `s`: `/{package}.{service}/`.
pub open spec fn path_prefix(s: ServiceDesc) -> Seq<char> {
    "/"@ + dotted(views(s.package@)) + "."@ + s.name@ + "/"@
}

fn concat(a: &str, b: &str) -> (r: String)
    ensures
        r@ == a@ + b@,
{
    let mut r = String::from_str(a);
    r.append(b);
    r
}

/// The signature of the service trait method for `m`.
pub open spec fn trait_method_text(m: MethodDesc) -> Seq<char> {
    "async fn "@
        + snake_of(m.name@)
        + "(&self, "@
        + m.arg_name@
        + ": "@
        + trait_input_text(m.input_ty@, m.client_streaming)
        + ") -> ::std::result::Result<"@
        + trait_output_text(m.output_ty@, m.server_streaming)
        + ">;\n"@
}

/// The client method that calls `m` at `path` in service `svc`.
pub open spec fn client_method_text(svc: Seq<char>, path: Seq<char>, m: MethodDesc) -> Seq<char> {
    "pub async fn "@
        + snake_of(m.name@)
        + "(\n&mut self,\nrequests: "@
        + client_input_text(m.input_ty@, m.client_streaming)
        + ",\n) -> "@
        + client_output_text(m.output_ty@, m.server_streaming)
        + " {\nlet req = "@
        + client_req_text(m.client_streaming)
        + ".map(|message| "@
        + suffixed(svc, "RequestSend"@)
        + "::"@
        + camel_of(m.name@)
        + "(::std::boxed::Box::pin(message) as _));\nlet resp = self.client.as_mut().unwrap().call(\""@
        + path
        + "\", req).await?;\n"@
        + client_resp_text(suffixed(svc, "ResponseRecv"@), camel_of(m.name@), m.server_streaming)
        + "}\n"@
}

/// The router arm that serves `m` at `path` in service `svc`: decode, call, encode.
pub open spec fn server_arm_text(svc: Seq<char>, path: Seq<char>, m: MethodDesc) -> Seq<char> {
    "\""@
        + path
        + "\" => {\n"@
        + server_req_text(suffixed(svc, "RequestRecv"@), camel_of(m.name@), m.client_streaming)
        + server_call_text(m.name@)
        + server_resp_text(suffixed(svc, "ResponseSend"@), camel_of(m.name@), m.server_streaming)
        + "}\n"@
}

/// An envelope enum `name` with the variants `body`.
pub open spec fn enum_section_text(name: Seq<char>, body: Seq<char>) -> Seq<char> {
    "pub enum "@
        + name
        + " {\n"@
        + body
        + "}\n"@
}

/// The encoding of the outbound envelope `name`, with the arms `arms`.
pub open spec fn encode_section_text(name: Seq<char>, arms: Seq<char>) -> Seq<char> {
    "impl ::volo_grpc::SendEntryMessage for "@
        + name
        + " {\nfn into_body(self) -> ::volo_grpc::BoxStream<'static, ::std::result::Result<::volo_grpc::codegen::Bytes, ::volo_grpc::Status>> {\nmatch self {\n"@
        + arms
        + "}\n}\n}\n"@
}

/// The decoding of the inbound envelope `name` by path, with the arms `arms`.
pub open spec fn decode_section_text(name: Seq<char>, arms: Seq<char>) -> Seq<char> {
    "impl ::volo_grpc::RecvEntryMessage for "@
        + name
        + " {\nfn from_body(method: ::std::option::Option<&str>, body: ::volo_grpc::codegen::hyper::Body, kind: ::volo_grpc::codec::decode::Kind) -> ::std::result::Result<Self, ::volo_grpc::Status> {\nmatch method {\n"@
        + arms
        + "_ => Err(::volo_grpc::Status::new(::volo_grpc::Code::Unimplemented, \"Method not found.\")),\n}\n}\n}\n"@
}

/// The client builder and the client of service `svc`, with the methods `methods`.
pub open spec fn client_section_text(svc: Seq<char>, methods: Seq<char>) -> Seq<char> {
    "pub struct "@
        + suffixed(svc, "ClientBuilder"@)
        + " {}\nimpl "@
        + suffixed(svc, "ClientBuilder"@)
        + " {\npub fn new(\nservice_name: impl AsRef<str>,\n) -> ::volo_grpc::client::ClientBuilder<"@
        + suffixed(svc, "Client"@)
        + ", ::volo::layer::Identity, "@
        + suffixed(svc, "RequestSend"@)
        + ", "@
        + suffixed(svc, "ResponseRecv"@)
        + "> {\n::volo_grpc::client::ClientBuilder::new("@
        + suffixed(svc, "Client"@)
        + "::new(), service_name)\n}\n}\n#[derive(Clone)]\npub struct "@
        + suffixed(svc, "Client"@)
        + " {\nclient: ::std::option::Option<::volo_grpc::client::Client<"@
        + suffixed(svc, "RequestSend"@)
        + ", "@
        + suffixed(svc, "ResponseRecv"@)
        + ">>\n}\nimpl "@
        + suffixed(svc, "Client"@)
        + " {\npub fn new() -> Self {\n"@
        + suffixed(svc, "Client"@)
        + " { client: None }\n}\npub fn with_callopt(mut self, callopt: ::volo_grpc::client::CallOpt) -> Self {\nself.client.as_mut().unwrap().set_callopt(callopt);\nself\n}\n"@
        + methods
        + "}\nimpl ::volo_grpc::client::SetClient<"@
        + suffixed(svc, "RequestSend"@)
        + ", "@
        + suffixed(svc, "ResponseRecv"@)
        + "> for "@
        + suffixed(svc, "Client"@)
        + " {\nfn set_client(\nmut self,\nclient: ::volo_grpc::client::Client<"@
        + suffixed(svc, "RequestSend"@)
        + ", "@
        + suffixed(svc, "ResponseRecv"@)
        + ">,\n) -> "@
        + suffixed(svc, "Client"@)
        + " {\n"@
        + suffixed(svc, "Client"@)
        + " {\nclient: Some(client),\n}\n}\n}\n"@
}

/// The server of service `svc`, routing by path with the arms `arms`.
pub open spec fn server_section_text(svc: Seq<char>, arms: Seq<char>) -> Seq<char> {
    "pub struct "@
        + suffixed(svc, "Server"@)
        + "<S> {\ninner: ::std::sync::Arc<S>,\n}\nimpl<S> Clone for "@
        + suffixed(svc, "Server"@)
        + "<S> {\nfn clone(&self) -> Self {\n"@
        + suffixed(svc, "Server"@)
        + " {\ninner: self.inner.clone(),\n}\n}\n}\nimpl<S> "@
        + suffixed(svc, "Server"@)
        + "<S> {\npub fn new(inner: S) -> ::volo_grpc::server::Server<Self, ::volo::layer::Identity> {\nlet service = Self {\ninner: ::std::sync::Arc::new(inner),\n};\n::volo_grpc::server::Server::new(service)\n}\n}\nimpl<S> ::volo::service::Service<::volo_grpc::context::ServerContext, ::volo_grpc::Request<"@
        + suffixed(svc, "RequestRecv"@)
        + ">> for "@
        + suffixed(svc, "Server"@)
        + "<S>\nwhere\nS: "@
        + svc
        + " + ::core::marker::Send + ::core::marker::Sync + 'static,\n{\ntype Response = ::volo_grpc::Response<"@
        + suffixed(svc, "ResponseSend"@)
        + ">;\ntype Error = ::volo_grpc::status::Status;\ntype Future<'cx> = impl ::std::future::Future<Output = ::std::result::Result<Self::Response, Self::Error>>;\nfn call<'cx, 's>(&'s mut self, cx: &'cx mut ::volo_grpc::context::ServerContext, req: ::volo_grpc::Request<"@
        + suffixed(svc, "RequestRecv"@)
        + ">) -> Self::Future<'cx>\nwhere\n's: 'cx,\n{\nlet inner = self.inner.clone();\nasync move {\nmatch cx.rpc_info.method().unwrap().as_str() {\n"@
        + arms
        + "path @ _ => {\nlet path = path.to_string();\nErr(::volo_grpc::Status::unimplemented(::std::format!(\"Unimplemented http path: {}\", path)))\n}\n}\n}\n}\n}\n"@
}

/// An envelope enum `name` with the variants `body`.
fn enum_section(name: &str, body: &str) -> (r: String)
    ensures
        r@ == enum_section_text(name@, body@),
{
    let mut r = String::from_str("pub enum ");
    r.append(name);
    r.append(" {\n");
    r.append(body);
    r.append("}\n");
    r
}

/// The encoding of the outbound envelope `name` with the arms `arms`.
fn encode_section(name: &str, arms: &str) -> (r: String)
    ensures
        r@ == encode_section_text(name@, arms@),
{
    let mut r = String::from_str("impl ::volo_grpc::SendEntryMessage for ");
    r.append(name);
    r.append(" {\nfn into_body(self) -> ::volo_grpc::BoxStream<'static, ::std::result::Result<::volo_grpc::codegen::Bytes, ::volo_grpc::Status>> {\nmatch self {\n");
    r.append(arms);
    r.append("}\n}\n}\n");
    r
}

/// The decoding of the inbound envelope `name` by path with the arms `arms`; other paths fail with `Unimplemented`.
fn decode_section(name: &str, arms: &str) -> (r: String)
    ensures
        r@ == decode_section_text(name@, arms@),
{
    let mut r = String::from_str("impl ::volo_grpc::RecvEntryMessage for ");
    r.append(name);
    r.append(" {\nfn from_body(method: ::std::option::Option<&str>, body: ::volo_grpc::codegen::hyper::Body, kind: ::volo_grpc::codec::decode::Kind) -> ::std::result::Result<Self, ::volo_grpc::Status> {\nmatch method {\n");
    r.append(arms);
    r.append("_ => Err(::volo_grpc::Status::new(::volo_grpc::Code::Unimplemented, \"Method not found.\")),\n}\n}\n}\n");
    r
}

/// The client builder and the client of service `svc`, with the methods `methods`.
fn client_section(svc: &str, methods: &str) -> (r: String)
    ensures
        r@ == client_section_text(svc@, methods@),
{
    let mut r = String::from_str("pub struct ");
    let t0 = concat(svc, "ClientBuilder");
    r.append(t0.as_str());
    r.append(" {}\nimpl ");
    let t1 = concat(svc, "ClientBuilder");
    r.append(t1.as_str());
    r.append(" {\npub fn new(\nservice_name: impl AsRef<str>,\n) -> ::volo_grpc::client::ClientBuilder<");
    let t2 = concat(svc, "Client");
    r.append(t2.as_str());
    r.append(", ::volo::layer::Identity, ");
    let t3 = concat(svc, "RequestSend");
    r.append(t3.as_str());
    r.append(", ");
    let t4 = concat(svc, "ResponseRecv");
    r.append(t4.as_str());
    r.append("> {\n::volo_grpc::client::ClientBuilder::new(");
    let t5 = concat(svc, "Client");
    r.append(t5.as_str());
    r.append("::new(), service_name)\n}\n}\n#[derive(Clone)]\npub struct ");
    let t6 = concat(svc, "Client");
    r.append(t6.as_str());
    r.append(" {\nclient: ::std::option::Option<::volo_grpc::client::Client<");
    let t7 = concat(svc, "RequestSend");
    r.append(t7.as_str());
    r.append(", ");
    let t8 = concat(svc, "ResponseRecv");
    r.append(t8.as_str());
    r.append(">>\n}\nimpl ");
    let t9 = concat(svc, "Client");
    r.append(t9.as_str());
    r.append(" {\npub fn new() -> Self {\n");
    let t10 = concat(svc, "Client");
    r.append(t10.as_str());
    r.append(" { client: None }\n}\npub fn with_callopt(mut self, callopt: ::volo_grpc::client::CallOpt) -> Self {\nself.client.as_mut().unwrap().set_callopt(callopt);\nself\n}\n");
    r.append(methods);
    r.append("}\nimpl ::volo_grpc::client::SetClient<");
    let t11 = concat(svc, "RequestSend");
    r.append(t11.as_str());
    r.append(", ");
    let t12 = concat(svc, "ResponseRecv");
    r.append(t12.as_str());
    r.append("> for ");
    let t13 = concat(svc, "Client");
    r.append(t13.as_str());
    r.append(" {\nfn set_client(\nmut self,\nclient: ::volo_grpc::client::Client<");
    let t14 = concat(svc, "RequestSend");
    r.append(t14.as_str());
    r.append(", ");
    let t15 = concat(svc, "ResponseRecv");
    r.append(t15.as_str());
    r.append(">,\n) -> ");
    let t16 = concat(svc, "Client");
    r.append(t16.as_str());
    r.append(" {\n");
    let t17 = concat(svc, "Client");
    r.append(t17.as_str());
    r.append(" {\nclient: Some(client),\n}\n}\n}\n");
    r
}

/// The server of service `svc`, routing by path with the arms `arms`; other paths fail with `Unimplemented`.
fn server_section(svc: &str, arms: &str) -> (r: String)
    ensures
        r@ == server_section_text(svc@, arms@),
{
    let mut r = String::from_str("pub struct ");
    let t0 = concat(svc, "Server");
    r.append(t0.as_str());
    r.append("<S> {\ninner: ::std::sync::Arc<S>,\n}\nimpl<S> Clone for ");
    let t1 = concat(svc, "Server");
    r.append(t1.as_str());
    r.append("<S> {\nfn clone(&self) -> Self {\n");
    let t2 = concat(svc, "Server");
    r.append(t2.as_str());
    r.append(" {\ninner: self.inner.clone(),\n}\n}\n}\nimpl<S> ");
    let t3 = concat(svc, "Server");
    r.append(t3.as_str());
    r.append("<S> {\npub fn new(inner: S) -> ::volo_grpc::server::Server<Self, ::volo::layer::Identity> {\nlet service = Self {\ninner: ::std::sync::Arc::new(inner),\n};\n::volo_grpc::server::Server::new(service)\n}\n}\nimpl<S> ::volo::service::Service<::volo_grpc::context::ServerContext, ::volo_grpc::Request<");
    let t4 = concat(svc, "RequestRecv");
    r.append(t4.as_str());
    r.append(">> for ");
    let t5 = concat(svc, "Server");
    r.append(t5.as_str());
    r.append("<S>\nwhere\nS: ");
    r.append(svc);
    r.append(" + ::core::marker::Send + ::core::marker::Sync + 'static,\n{\ntype Response = ::volo_grpc::Response<");
    let t6 = concat(svc, "ResponseSend");
    r.append(t6.as_str());
    r.append(">;\ntype Error = ::volo_grpc::status::Status;\ntype Future<'cx> = impl ::std::future::Future<Output = ::std::result::Result<Self::Response, Self::Error>>;\nfn call<'cx, 's>(&'s mut self, cx: &'cx mut ::volo_grpc::context::ServerContext, req: ::volo_grpc::Request<");
    let t7 = concat(svc, "RequestRecv");
    r.append(t7.as_str());
    r.append(">) -> Self::Future<'cx>\nwhere\n's: 'cx,\n{\nlet inner = self.inner.clone();\nasync move {\nmatch cx.rpc_info.method().unwrap().as_str() {\n");
    r.append(arms);
    r.append("path @ _ => {\nlet path = path.to_string();\nErr(::volo_grpc::Status::unimplemented(::std::format!(\"Unimplemented http path: {}\", path)))\n}\n}\n}\n}\n}\n");
    r
}


/// The code that `codegen_service_impl` writes for service `s`: its four
/// envelopes with their encoding and decoding, its client and its server.
pub open spec fn service_text(s: ServiceDesc) -> Seq<char> {
    let svc = camel_of(s.name@);
    let prefix = path_prefix(s);
    let ms = s.methods@;
    enum_section_text(suffixed(svc, "RequestSend"@), pieces_text(svc, prefix, ms, Piece::SendVariant(true)))
        + encode_section_text(suffixed(svc, "RequestSend"@), pieces_text(svc, prefix, ms, Piece::EncodeArm))
        + enum_section_text(suffixed(svc, "RequestRecv"@), pieces_text(svc, prefix, ms, Piece::RecvVariant(true)))
        + decode_section_text(suffixed(svc, "RequestRecv"@), pieces_text(svc, prefix, ms, Piece::DecodeArm))
        + enum_section_text(suffixed(svc, "ResponseSend"@), pieces_text(svc, prefix, ms, Piece::SendVariant(false)))
        + encode_section_text(suffixed(svc, "ResponseSend"@), pieces_text(svc, prefix, ms, Piece::EncodeArm))
        + enum_section_text(suffixed(svc, "ResponseRecv"@), pieces_text(svc, prefix, ms, Piece::RecvVariant(false)))
        + decode_section_text(suffixed(svc, "ResponseRecv"@), pieces_text(svc, prefix, ms, Piece::DecodeArm))
        + client_section_text(svc, pieces_text(svc, prefix, ms, Piece::ClientMethod))
        + server_section_text(svc, pieces_text(svc, prefix, ms, Piece::ServerArm))
}

impl VoloGrpcBackend {
    /// The signature of the service trait method for `m`.
    pub fn codegen_service_method(&self, m: &MethodDesc) -> (r: String)
        ensures
            r@ == trait_method_text(*m),
    {
        let mut r = String::from_str("async fn ");
        let t0 = snake_case(m.name.as_str());
        r.append(t0.as_str());
        r.append("(&self, ");
        r.append(m.arg_name.as_str());
        r.append(": ");
        let t1 = self.trait_input_ty(m.input_ty.as_str(), m.client_streaming);
        r.append(t1.as_str());
        r.append(") -> ::std::result::Result<");
        let t2 = self.trait_output_ty(m.output_ty.as_str(), m.server_streaming);
        r.append(t2.as_str());
        r.append(">;\n");
        r
    }

    /// The client method that calls `m` at `path`.
    fn client_method(&self, svc: &str, path: &str, m: &MethodDesc) -> (r: String)
        ensures
            r@ == client_method_text(svc@, path@, *m),
    {
        let mut r = String::from_str("pub async fn ");
        let t0 = snake_case(m.name.as_str());
        r.append(t0.as_str());
        r.append("(\n&mut self,\nrequests: ");
        let t1 = self.client_input_ty(m.input_ty.as_str(), m.client_streaming);
        r.append(t1.as_str());
        r.append(",\n) -> ");
        let t2 = self.client_output_ty(m.output_ty.as_str(), m.server_streaming);
        r.append(t2.as_str());
        r.append(" {\nlet req = ");
        let t3 = self.build_client_req(m.client_streaming);
        r.append(t3.as_str());
        r.append(".map(|message| ");
        let t4 = concat(svc, "RequestSend");
        r.append(t4.as_str());
        r.append("::");
        let t5 = upper_camel_case(m.name.as_str());
        r.append(t5.as_str());
        r.append("(::std::boxed::Box::pin(message) as _));\nlet resp = self.client.as_mut().unwrap().call(\"");
        r.append(path);
        r.append("\", req).await?;\n");
        let t6 = self.build_client_resp(concat(svc, "ResponseRecv").as_str(), upper_camel_case(m.name.as_str()).as_str(), m.server_streaming);
        r.append(t6.as_str());
        r.append("}\n");
        r
    }

    /// The arm of the server's router that serves `m` at `path`.
    fn server_arm(&self, svc: &str, path: &str, m: &MethodDesc) -> (r: String)
        ensures
            r@ == server_arm_text(svc@, path@, *m),
    {
        let mut r = String::from_str("\"");
        r.append(path);
        r.append("\" => {\n");
        let t0 = self.build_server_req(concat(svc, "RequestRecv").as_str(), upper_camel_case(m.name.as_str()).as_str(), m.client_streaming);
        r.append(t0.as_str());
        let t1 = self.build_server_call(m.name.as_str());
        r.append(t1.as_str());
        let t2 = self.build_server_resp(concat(svc, "ResponseSend").as_str(), upper_camel_case(m.name.as_str()).as_str(), m.server_streaming);
        r.append(t2.as_str());
        r.append("}\n");
        r
    }

    fn piece(&self, svc: &str, prefix: &str, m: &MethodDesc, p: Piece) -> (r: String)
        ensures
            r@ == piece_text(svc@, prefix@, *m, p),
    {
        let variant = upper_camel_case(m.name.as_str());
        match p {
            Piece::SendVariant(req) => {
                let mut r = String::from_str(variant.as_str());
                r.append("(::volo_grpc::BoxStream<'static, ::std::result::Result<");
                if req {
                    r.append(m.input_ty.as_str());
                } else {
                    r.append(m.output_ty.as_str());
                }
                r.append(", ::volo_grpc::Status>>),\n");
                r
            },
            Piece::RecvVariant(req) => {
                let mut r = String::from_str(variant.as_str());
                r.append("(::volo_grpc::RecvStream<");
                if req {
                    r.append(m.input_ty.as_str());
                } else {
                    r.append(m.output_ty.as_str());
                }
                r.append(">),\n");
                r
            },
            Piece::EncodeArm => {
                let mut r = String::from_str("Self::");
                r.append(variant.as_str());
                r.append("(s) => ::volo_grpc::codec::encode::encode(s),\n");
                r
            },
            Piece::DecodeArm => {
                let path = concat(prefix, m.name.as_str());
                let mut r = String::from_str("Some(\"");
                r.append(path.as_str());
                r.append("\") => Ok(Self::");
                r.append(variant.as_str());
                r.append("(::volo_grpc::RecvStream::new(body, kind))),\n");
                r
            },
            Piece::ClientMethod => {
                let path = concat(prefix, m.name.as_str());
                self.client_method(svc, path.as_str(), m)
            },
            Piece::ServerArm => {
                let path = concat(prefix, m.name.as_str());
                self.server_arm(svc, path.as_str(), m)
            },
        }
    }

    fn pieces(&self, svc: &str, prefix: &str, ms: &Vec<MethodDesc>, p: Piece) -> (r: String)
        ensures
            r@ == pieces_text(svc@, prefix@, ms@, p),
    {
        let mut r = String::new();
        let mut i: usize = 0;
        while i < ms.len()
            invariant
                i <= ms@.len(),
                r@ == pieces_text(svc@, prefix@, ms@.subrange(0, i as int), p),
            decreases ms@.len() - i,
        {
            let t = self.piece(svc, prefix, &ms[i], p);
            assert(ms@.subrange(0, i + 1).drop_last() =~= ms@.subrange(0, i as int));
            r.append(t.as_str());
            i += 1;
        }
        assert(ms@.subrange(0, ms@.len() as int) =~= ms@);
        r
    }

    /// Writes the code of service `s` at the end of `stream`: the request and
    /// response envelopes, each once to send and once to receive, with one
    /// variant per method; the client with one method per method; the server
    /// that routes each method's path to its handler.
    pub fn codegen_service_impl(&self, stream: &mut String, s: &ServiceDesc)
        ensures
            final(stream)@ == old(stream)@ + service_text(*s),
    {
        let svc = upper_camel_case(s.name.as_str());
        let svc = svc.as_str();
        let package = join_dotted(&s.package);
        let mut prefix = String::from_str("/");
        prefix.append(package.as_str());
        prefix.append(".");
        prefix.append(s.name.as_str());
        prefix.append("/");
        let prefix = prefix.as_str();
        let req_send = concat(svc, "RequestSend");
        let req_recv = concat(svc, "RequestRecv");
        let resp_send = concat(svc, "ResponseSend");
        let resp_recv = concat(svc, "ResponseRecv");
        let ms = &s.methods;

        let mut out = enum_section(req_send.as_str(), self.pieces(svc, prefix, ms, Piece::SendVariant(true)).as_str());
        let t = encode_section(req_send.as_str(), self.pieces(svc, prefix, ms, Piece::EncodeArm).as_str());
        out.append(t.as_str());
        let t = enum_section(req_recv.as_str(), self.pieces(svc, prefix, ms, Piece::RecvVariant(true)).as_str());
        out.append(t.as_str());
        let t = decode_section(req_recv.as_str(), self.pieces(svc, prefix, ms, Piece::DecodeArm).as_str());
        out.append(t.as_str());
        let t = enum_section(resp_send.as_str(), self.pieces(svc, prefix, ms, Piece::SendVariant(false)).as_str());
        out.append(t.as_str());
        let t = encode_section(resp_send.as_str(), self.pieces(svc, prefix, ms, Piece::EncodeArm).as_str());
        out.append(t.as_str());
        let t = enum_section(resp_recv.as_str(), self.pieces(svc, prefix, ms, Piece::RecvVariant(false)).as_str());
        out.append(t.as_str());
        let t = decode_section(resp_recv.as_str(), self.pieces(svc, prefix, ms, Piece::DecodeArm).as_str());
        out.append(t.as_str());
        let t = client_section(svc, self.pieces(svc, prefix, ms, Piece::ClientMethod).as_str());
        out.append(t.as_str());
        let t = server_section(svc, self.pieces(svc, prefix, ms, Piece::ServerArm).as_str());
        out.append(t.as_str());
        stream.append(out.as_str());
    }
}

} // verus!
