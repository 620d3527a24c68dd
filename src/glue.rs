use vstd::prelude::*;
use vstd::string::*;
use crate::emit::VoloGrpcBackend;
use crate::naming::{snake_case, snake_of};

verus! {

/// Takes `binding` apart into metadata, extensions and the stream of the
/// envelope's `variant`; any other variant fails with `Unimplemented`.
pub open spec fn unpack_text(binding: Seq<char>, enum_name: Seq<char>, variant: Seq<char>) -> Seq<char> {
    "let (mut metadata, extensions, message_stream) = "@ + binding
        + ".into_parts();\nlet mut message_stream = match message_stream {\n"@ + enum_name + "::"@
        + variant
        + "(stream) => stream,\n_ => return Err(::volo_grpc::Status::new(::volo_grpc::Code::Unimplemented, \"Method not found.\")),\n};\n"@
}

pub open spec fn client_req_text(streaming: bool) -> Seq<char> {
    if streaming {
        "requests.into_streaming_request().map(|s| ::volo_grpc::codegen::StreamExt::map(s, |m| ::std::result::Result::Ok(m)))"@
    } else {
        "requests.into_request().map(|m| ::futures::stream::once(::futures::future::ready(::std::result::Result::Ok(m))))"@
    }
}

pub open spec fn client_resp_text(enum_name: Seq<char>, variant: Seq<char>, streaming: bool) -> Seq<char> {
    unpack_text("resp"@, enum_name, variant) + if streaming {
        "Ok(::volo_grpc::Response::from_parts(metadata, extensions, message_stream))\n"@
    } else {
        "let message = ::volo_grpc::codegen::StreamExt::try_next(&mut message_stream).await.map_err(|mut status| {\nstatus.metadata_mut().merge(metadata.clone());\nstatus\n})?.ok_or_else(|| ::volo_grpc::Status::new(::volo_grpc::Code::Internal, \"Missing response message.\"))?;\nif let Some(trailers) = message_stream.trailers().await? {\nmetadata.merge(trailers);\n}\nOk(::volo_grpc::Response::from_parts(metadata, extensions, message))\n"@
    }
}

pub open spec fn server_req_text(enum_name: Seq<char>, variant: Seq<char>, streaming: bool) -> Seq<char> {
    unpack_text("req"@, enum_name, variant) + if streaming {
        "let req = ::volo_grpc::Request::from_parts(metadata, extensions, message_stream);\n"@
    } else {
        "::futures::pin_mut!(message_stream);\nlet message = ::volo_grpc::codegen::StreamExt::try_next(&mut message_stream).await?.ok_or_else(|| ::volo_grpc::Status::new(::volo_grpc::Code::Internal, \"Missing request message.\"))?;\nif let Some(trailers) = message_stream.trailers().await? {\nmetadata.merge(trailers);\n}\nlet req = ::volo_grpc::Request::from_parts(metadata, extensions, message);\n"@
    }
}

pub open spec fn server_call_text(method_name: Seq<char>) -> Seq<char> {
    "let resp = inner."@ + snake_of(method_name) + "(req).await;\n"@
}

pub open spec fn server_resp_text(enum_name: Seq<char>, variant: Seq<char>, streaming: bool) -> Seq<char> {
    if streaming {
        "resp.map(|r| r.map(|s| "@ + enum_name + "::"@ + variant + "(s)))\n"@
    } else {
        "resp.map(|r| r.map(|m| "@ + enum_name + "::"@ + variant
            + "(::std::boxed::Box::pin(::futures::stream::once(::futures::future::ok(m))))))\n"@
    }
}

fn unpack(binding: &str, enum_name: &str, variant: &str) -> (r: String)
    ensures
        r@ == unpack_text(binding@, enum_name@, variant@),
{
    let mut r = String::from_str("let (mut metadata, extensions, message_stream) = ");
    r.append(binding);
    r.append(".into_parts();\nlet mut message_stream = match message_stream {\n");
    r.append(enum_name);
    r.append("::");
    r.append(variant);
    r.append(
        "(stream) => stream,\n_ => return Err(::volo_grpc::Status::new(::volo_grpc::Code::Unimplemented, \"Method not found.\")),\n};\n",
    );
    r
}

impl VoloGrpcBackend {
    /// The expression that turns the caller's `requests` into a stream of
    /// `Ok` messages: every item of a stream, or the one message of a unary call.
    pub fn build_client_req(&self, streaming: bool) -> (r: String)
        ensures
            r@ == client_req_text(streaming),
    {
        if streaming {
            String::from_str(
                "requests.into_streaming_request().map(|s| ::volo_grpc::codegen::StreamExt::map(s, |m| ::std::result::Result::Ok(m)))",
            )
        } else {
            String::from_str(
                "requests.into_request().map(|m| ::futures::stream::once(::futures::future::ready(::std::result::Result::Ok(m))))",
            )
        }
    }

    /// The statements that turn the reply `resp` into the client method's result.
    pub fn build_client_resp(&self, resp_enum_name: &str, variant_name: &str, streaming: bool) -> (r: String)
        ensures
            r@ == client_resp_text(resp_enum_name@, variant_name@, streaming),
    {
        let mut r = unpack("resp", resp_enum_name, variant_name);
        if streaming {
            r.append("Ok(::volo_grpc::Response::from_parts(metadata, extensions, message_stream))\n");
        } else {
            r.append(
                "let message = ::volo_grpc::codegen::StreamExt::try_next(&mut message_stream).await.map_err(|mut status| {\nstatus.metadata_mut().merge(metadata.clone());\nstatus\n})?.ok_or_else(|| ::volo_grpc::Status::new(::volo_grpc::Code::Internal, \"Missing response message.\"))?;\nif let Some(trailers) = message_stream.trailers().await? {\nmetadata.merge(trailers);\n}\nOk(::volo_grpc::Response::from_parts(metadata, extensions, message))\n",
            );
        }
        r
    }

    /// The statements that turn the inbound `req` into the handler's request `req`.
    pub fn build_server_req(&self, req_enum_name: &str, variant_name: &str, streaming: bool) -> (r: String)
        ensures
            r@ == server_req_text(req_enum_name@, variant_name@, streaming),
    {
        let mut r = unpack("req", req_enum_name, variant_name);
        if streaming {
            r.append("let req = ::volo_grpc::Request::from_parts(metadata, extensions, message_stream);\n");
        } else {
            r.append(
                "::futures::pin_mut!(message_stream);\nlet message = ::volo_grpc::codegen::StreamExt::try_next(&mut message_stream).await?.ok_or_else(|| ::volo_grpc::Status::new(::volo_grpc::Code::Internal, \"Missing request message.\"))?;\nif let Some(trailers) = message_stream.trailers().await? {\nmetadata.merge(trailers);\n}\nlet req = ::volo_grpc::Request::from_parts(metadata, extensions, message);\n",
            );
        }
        r
    }

    /// The statement that hands `req` to the user's handler for `method_name`.
    pub fn build_server_call(&self, method_name: &str) -> (r: String)
        ensures
            r@ == server_call_text(method_name@),
    {
        let mut r = String::from_str("let resp = inner.");
        let name = snake_case(method_name);
        r.append(name.as_str());
        r.append("(req).await;\n");
        r
    }

    /// The expression that wraps the handler's result into the outbound envelope.
    pub fn build_server_resp(&self, resp_enum_name: &str, variant_name: &str, streaming: bool) -> (r: String)
        ensures
            r@ == server_resp_text(resp_enum_name@, variant_name@, streaming),
    {
        let mut r;
        if streaming {
            r = String::from_str("resp.map(|r| r.map(|s| ");
            r.append(resp_enum_name);
            r.append("::");
            r.append(variant_name);
            r.append("(s)))\n");
        } else {
            r = String::from_str("resp.map(|r| r.map(|m| ");
            r.append(resp_enum_name);
            r.append("::");
            r.append(variant_name);
            r.append("(::std::boxed::Box::pin(::futures::stream::once(::futures::future::ok(m))))))\n");
        }
        r
    }
}

} // verus!
