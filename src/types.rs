use vstd::prelude::*;
use vstd::string::*;
use crate::emit::VoloGrpcBackend;

verus! {

/// The type of a service trait method's argument.
pub open spec fn trait_input_text(ty: Seq<char>, streaming: bool) -> Seq<char> {
    if streaming {
        "::volo_grpc::Request<::volo_grpc::RecvStream<"@ + ty + ">>"@
    } else {
        "::volo_grpc::Request<"@ + ty + ">"@
    }
}

/// The `Ok` and `Err` types of a service trait method's result.
pub open spec fn trait_output_text(ty: Seq<char>, streaming: bool) -> Seq<char> {
    if streaming {
        "::volo_grpc::Response<::volo_grpc::BoxStream<'static, ::std::result::Result<"@ + ty
            + ", ::volo_grpc::Status>>>, ::volo_grpc::Status"@
    } else {
        "::volo_grpc::Response<"@ + ty + ">, ::volo_grpc::Status"@
    }
}

/// The type of the argument of a client method.
pub open spec fn client_input_text(ty: Seq<char>, streaming: bool) -> Seq<char> {
    if streaming {
        "impl ::volo_grpc::IntoStreamingRequest<Message = "@ + ty + ">"@
    } else {
        "impl ::volo_grpc::IntoRequest<"@ + ty + ">"@
    }
}

/// The result type of a client method.
pub open spec fn client_output_text(ty: Seq<char>, streaming: bool) -> Seq<char> {
    if streaming {
        "::std::result::Result<::volo_grpc::Response<impl ::futures::Stream<Item = ::std::result::Result<"@
            + ty + ", ::volo_grpc::Status>>>, ::volo_grpc::Status>"@
    } else {
        "::std::result::Result<::volo_grpc::Response<"@ + ty + ">, ::volo_grpc::Status>"@
    }
}

impl VoloGrpcBackend {
    /// The argument type of a trait method taking `ty`, one message or a stream of them.
    pub fn trait_input_ty(&self, ty: &str, streaming: bool) -> (r: String)
        ensures
            r@ == trait_input_text(ty@, streaming),
    {
        if streaming {
            let mut r = String::from_str("::volo_grpc::Request<::volo_grpc::RecvStream<");
            r.append(ty);
            r.append(">>");
            r
        } else {
            let mut r = String::from_str("::volo_grpc::Request<");
            r.append(ty);
            r.append(">");
            r
        }
    }

    /// The result types of a trait method returning `ty`, one message or a stream of them.
    pub fn trait_output_ty(&self, ty: &str, streaming: bool) -> (r: String)
        ensures
            r@ == trait_output_text(ty@, streaming),
    {
        if streaming {
            let mut r = String::from_str(
                "::volo_grpc::Response<::volo_grpc::BoxStream<'static, ::std::result::Result<",
            );
            r.append(ty);
            r.append(", ::volo_grpc::Status>>>, ::volo_grpc::Status");
            r
        } else {
            let mut r = String::from_str("::volo_grpc::Response<");
            r.append(ty);
            r.append(">, ::volo_grpc::Status");
            r
        }
    }

    /// The argument type of a client method sending `ty`.
    pub fn client_input_ty(&self, ty: &str, streaming: bool) -> (r: String)
        ensures
            r@ == client_input_text(ty@, streaming),
    {
        if streaming {
            let mut r = String::from_str("impl ::volo_grpc::IntoStreamingRequest<Message = ");
            r.append(ty);
            r.append(">");
            r
        } else {
            let mut r = String::from_str("impl ::volo_grpc::IntoRequest<");
            r.append(ty);
            r.append(">");
            r
        }
    }

    /// The result type of a client method receiving `ty`.
    pub fn client_output_ty(&self, ty: &str, streaming: bool) -> (r: String)
        ensures
            r@ == client_output_text(ty@, streaming),
    {
        if streaming {
            let mut r = String::from_str(
                "::std::result::Result<::volo_grpc::Response<impl ::futures::Stream<Item = ::std::result::Result<",
            );
            r.append(ty);
            r.append(", ::volo_grpc::Status>>>, ::volo_grpc::Status>");
            r
        } else {
            let mut r = String::from_str("::std::result::Result<::volo_grpc::Response<");
            r.append(ty);
            r.append(">, ::volo_grpc::Status>");
            r
        }
    }
}

} // verus!
