use vstd::prelude::*;
use vstd::string::*;
use crate::emit::path_prefix;
use crate::model::ServiceDesc;
use crate::naming::{dotted, join_dotted, path_of, views};

verus! {

/// A metadata entry: a header name and its value.
pub type Header = (String, String);

/// The status codes of gRPC that a failed call carries.
#[derive(PartialEq, Eq, Structural, Clone, Copy, Debug)]
pub enum Code {
    Cancelled,
    Unknown,
    InvalidArgument,
    DeadlineExceeded,
    NotFound,
    AlreadyExists,
    PermissionDenied,
    ResourceExhausted,
    FailedPrecondition,
    Aborted,
    OutOfRange,
    Unimplemented,
    Internal,
    Unavailable,
    DataLoss,
    Unauthenticated,
}

/// An error of a call: its code, its message and the metadata it carries.
pub struct Status {
    pub code: Code,
    pub message: String,
    pub metadata: Vec<Header>,
}

/// The messages of a stream in the order they arrive, then what asking for
/// its trailing metadata gives.
pub struct MessageStream<M> {
    pub items: Vec<Result<M, Status>>,
    pub trailers: Result<Option<Vec<Header>>, Status>,
}

/// A request or a response taken apart: its metadata and its message (or
/// stream of messages).
pub struct Parts<T> {
    pub metadata: Vec<Header>,
    pub message: T,
}

/// An inbound envelope: the index of the method whose variant it is, and
/// the stream that variant carries.
pub struct Envelope<M> {
    pub variant: usize,
    pub stream: MessageStream<M>,
}

/// What a unary receive ends in: the metadata and the one message handed
/// on, or a status with its code, message and metadata.
pub enum Outcome<M> {
    Delivered(Seq<Header>, M),
    Failed(Code, Seq<char>, Seq<Header>),
}

pub open spec fn failed<M>(e: Status) -> Outcome<M> {
    Outcome::Failed(e.code, e.message@, e.metadata@)
}

/// `r` is the executable form of outcome `o`.
pub open spec fn agrees<M>(r: Result<Parts<M>, Status>, o: Outcome<M>) -> bool {
    match o {
        Outcome::Delivered(md, m) => r is Ok && r->Ok_0.metadata@ == md && r->Ok_0.message == m,
        Outcome::Failed(c, msg, md) => r is Err && r->Err_0.code == c && r->Err_0.message@ == msg
            && r->Err_0.metadata@ == md,
    }
}

pub open spec fn trailers_view(t: Result<Option<Vec<Header>>, Status>) -> Result<Option<Seq<Header>>, Status> {
    match t {
        Ok(Some(v)) => Ok(Some(v@)),
        Ok(None) => Ok(None),
        Err(e) => Err(e),
    }
}

/// The metadata `md` merged with the trailing metadata, if any came.
pub open spec fn with_trailers(md: Seq<Header>, t: Option<Seq<Header>>) -> Seq<Header> {
    match t {
        Some(extra) => md + extra,
        None => md,
    }
}

/// What the server makes of the stream of a unary request that came with
/// metadata `md`: its first message, with the trailing metadata merged in;
/// a stream error as it is; `Internal` when no message came.
pub open spec fn unary_request_outcome<M>(
    md: Seq<Header>,
    items: Seq<Result<M, Status>>,
    trailers: Result<Option<Seq<Header>>, Status>,
) -> Outcome<M> {
    if items.len() == 0 {
        Outcome::Failed(Code::Internal, "Missing request message."@, Seq::empty())
    } else {
        match items[0] {
            Err(e) => failed(e),
            Ok(m) => match trailers {
                Err(e) => failed(e),
                Ok(t) => Outcome::Delivered(with_trailers(md, t), m),
            },
        }
    }
}

/// What the client makes of the stream of a unary response that came with
/// metadata `md`: as on the server, but a stream error carries `md` merged
/// into its own metadata.
pub open spec fn unary_response_outcome<M>(
    md: Seq<Header>,
    items: Seq<Result<M, Status>>,
    trailers: Result<Option<Seq<Header>>, Status>,
) -> Outcome<M> {
    if items.len() == 0 {
        Outcome::Failed(Code::Internal, "Missing response message."@, Seq::empty())
    } else {
        match items[0] {
            Err(e) => Outcome::Failed(e.code, e.message@, e.metadata@ + md),
            Ok(m) => match trailers {
                Err(e) => failed(e),
                Ok(t) => Outcome::Delivered(with_trailers(md, t), m),
            },
        }
    }
}

/// Every message of `ms`, in order, as an `Ok` item of a stream.
pub open spec fn all_ok<M>(ms: Seq<M>) -> Seq<Result<M, Status>> {
    ms.map_values(|m: M| Ok::<M, Status>(m))
}

/// The one-message stream of a unary call.
pub open spec fn one_ok<M>(m: M) -> Seq<Result<M, Status>> {
    seq![Ok::<M, Status>(m)]
}

fn status(code: Code, message: &str) -> (r: Status)
    ensures
        r.code == code,
        r.message@ == message@,
        r.metadata@ == Seq::<Header>::empty(),
{
    Status { code, message: String::from_str(message), metadata: Vec::new() }
}

/// The stream that carries the one message of a unary call, as the client
/// sends a request and the server a response.
pub fn send_one<M>(m: M) -> (r: Vec<Result<M, Status>>)
    ensures
        r@ == one_ok(m),
{
    let mut r = Vec::new();
    r.push(Ok(m));
    r
}

/// The stream that carries the caller's messages of a streaming request, in order.
pub fn send_all<M>(ms: Vec<M>) -> (r: Vec<Result<M, Status>>)
    ensures
        r@ == all_ok(ms@),
{
    let ghost orig = ms@;
    let mut ms = ms;
    let mut r: Vec<Result<M, Status>> = Vec::new();
    while ms.len() > 0
        invariant
            r@.len() + ms@.len() == orig.len(),
            r@ == all_ok(orig.subrange(0, r@.len() as int)),
            ms@ == orig.subrange(r@.len() as int, orig.len() as int),
        decreases ms@.len(),
    {
        let m = ms.remove(0);
        let ghost k: int = r@.len() as int;
        r.push(Ok(m));
        assert(r@ =~= all_ok(orig.subrange(0, k + 1)));
        assert(ms@ =~= orig.subrange(k + 1, orig.len() as int));
    }
    assert(orig.subrange(0, orig.len() as int) =~= orig);
    r
}

/// Takes the stream out of an inbound envelope whose variant should be
/// `expected`; any other variant fails with `Unimplemented`.
pub fn open_envelope<M>(expected: usize, env: Envelope<M>) -> (r: Result<MessageStream<M>, Status>)
    ensures
        env.variant == expected ==> r == Ok::<MessageStream<M>, Status>(env.stream),
        env.variant != expected ==> r is Err && r->Err_0.code == Code::Unimplemented
            && r->Err_0.message@ == "Method not found."@ && r->Err_0.metadata@.len() == 0,
{
    if env.variant == expected {
        Ok(env.stream)
    } else {
        Err(status(Code::Unimplemented, "Method not found."))
    }
}

/// Hands a stream on unchanged with its metadata, as the streaming side of
/// both the server's request and the client's response does.
pub fn pass_stream<M>(metadata: Vec<Header>, stream: MessageStream<M>) -> (r: Parts<MessageStream<M>>)
    ensures
        r.metadata == metadata,
        r.message == stream,
{
    Parts { metadata, message: stream }
}

/// The server side of a unary request: takes its one message.
pub fn recv_request<M>(metadata: Vec<Header>, stream: MessageStream<M>) -> (r: Result<Parts<M>, Status>)
    ensures
        agrees(r, unary_request_outcome(metadata@, stream.items@, trailers_view(stream.trailers))),
{
    let mut metadata = metadata;
    let mut items = stream.items;
    if items.len() == 0 {
        return Err(status(Code::Internal, "Missing request message."));
    }
    let first = items.remove(0);
    match first {
        Err(e) => Err(e),
        Ok(m) => match stream.trailers {
            Err(e) => Err(e),
            Ok(None) => Ok(Parts { metadata, message: m }),
            Ok(Some(t)) => {
                let mut t = t;
                metadata.append(&mut t);
                Ok(Parts { metadata, message: m })
            },
        },
    }
}

/// The client side of a unary response: takes its one message; a stream
/// error gets the response's metadata merged into its own.
pub fn recv_response<M>(metadata: Vec<Header>, stream: MessageStream<M>) -> (r: Result<Parts<M>, Status>)
    ensures
        agrees(r, unary_response_outcome(metadata@, stream.items@, trailers_view(stream.trailers))),
{
    let mut metadata = metadata;
    let mut items = stream.items;
    if items.len() == 0 {
        return Err(status(Code::Internal, "Missing response message."));
    }
    let first = items.remove(0);
    match first {
        Err(e) => {
            let mut e = e;
            e.metadata.append(&mut metadata);
            Err(e)
        },
        Ok(m) => match stream.trailers {
            Err(e) => Err(e),
            Ok(None) => Ok(Parts { metadata, message: m }),
            Ok(Some(t)) => {
                let mut t = t;
                metadata.append(&mut t);
                Ok(Parts { metadata, message: m })
            },
        },
    }
}

/// The wire path of the method at index `i` of `s`.
pub open spec fn method_path_of(s: ServiceDesc, i: int) -> Seq<char> {
    path_prefix(s) + s.methods@[i].name@
}

/// The first of the first `n` methods of `s` whose path is `p`.
pub open spec fn first_match(s: ServiceDesc, p: Seq<char>, n: int) -> Option<int>
    decreases n,
{
    if n <= 0 {
        None
    } else {
        match first_match(s, p, n - 1) {
            Some(i) => Some(i),
            None => if method_path_of(s, n - 1) == p {
                Some(n - 1)
            } else {
                None
            },
        }
    }
}

/// The method of `s` that path `p` selects, if any.
pub open spec fn path_index(s: ServiceDesc, p: Seq<char>) -> Option<int> {
    first_match(s, p, s.methods@.len() as int)
}

proof fn lemma_first_match_kept(s: ServiceDesc, p: Seq<char>, i: int, n: int)
    requires
        i <= n,
        first_match(s, p, i) is Some,
    ensures
        first_match(s, p, n) == first_match(s, p, i),
    decreases n - i,
{
    if i < n {
        lemma_first_match_kept(s, p, i, n - 1);
    }
}

proof fn lemma_first_match_none(s: ServiceDesc, p: Seq<char>, n: int)
    requires
        forall|j: int| 0 <= j < n ==> method_path_of(s, j) != p,
    ensures
        first_match(s, p, n) is None,
    decreases n,
{
    if n > 0 {
        lemma_first_match_none(s, p, n - 1);
    }
}

proof fn lemma_first_match_range(s: ServiceDesc, p: Seq<char>, n: int)
    ensures
        first_match(s, p, n) is Some ==> 0 <= first_match(s, p, n)->0 < n
            && method_path_of(s, first_match(s, p, n)->0) == p,
    decreases n,
{
    if n > 0 {
        lemma_first_match_range(s, p, n - 1);
    }
}

/// A method's path is `/{package}.{service}/{method}` verbatim, with the
/// package segments joined by dots; two methods of a service whose names
/// differ have different paths.
pub proof fn lemma_path_determinism(s: ServiceDesc, i: int, j: int)
    requires
        s.names_distinct(),
        0 <= i < s.methods@.len(),
        0 <= j < s.methods@.len(),
    ensures
        method_path_of(s, i) == path_of(views(s.package@), s.name@, s.methods@[i].name@),
        i != j ==> method_path_of(s, i) != method_path_of(s, j),
{
    let pre = path_prefix(s);
    if i != j && method_path_of(s, i) == method_path_of(s, j) {
        assert(method_path_of(s, i).subrange(pre.len() as int, method_path_of(s, i).len() as int)
            =~= s.methods@[i].name@);
        assert(method_path_of(s, j).subrange(pre.len() as int, method_path_of(s, j).len() as int)
            =~= s.methods@[j].name@);
    }
}

/// Decoding by the path of any method gives that method's variant, and a
/// path that is no method's gives none.
pub proof fn lemma_decode_bijection(s: ServiceDesc, i: int, p: Seq<char>)
    requires
        s.names_distinct(),
        0 <= i < s.methods@.len(),
    ensures
        path_index(s, method_path_of(s, i)) == Some(i),
        (forall|j: int| 0 <= j < s.methods@.len() ==> method_path_of(s, j) != p)
            ==> path_index(s, p) is None,
        path_index(s, p) is Some ==> method_path_of(s, path_index(s, p)->0) == p,
{
    let q = method_path_of(s, i);
    assert forall|j: int| 0 <= j < i implies method_path_of(s, j) != q by {
        lemma_path_determinism(s, j, i);
    }
    lemma_first_match_none(s, q, i);
    lemma_first_match_kept(s, q, i + 1, s.methods@.len() as int);
    if forall|j: int| 0 <= j < s.methods@.len() ==> method_path_of(s, j) != p {
        lemma_first_match_none(s, p, s.methods@.len() as int);
    }
    lemma_first_match_range(s, p, s.methods@.len() as int);
}

/// A path that is no method's selects nothing, so the router answers it
/// with `Unimplemented` naming the path.
pub proof fn lemma_unknown_path(s: ServiceDesc, p: Seq<char>)
    requires
        forall|j: int| 0 <= j < s.methods@.len() ==> method_path_of(s, j) != p,
    ensures
        path_index(s, p) is None,
{
    lemma_first_match_none(s, p, s.methods@.len() as int);
}

fn service_prefix(s: &ServiceDesc) -> (r: String)
    ensures
        r@ == path_prefix(*s),
{
    let package = join_dotted(&s.package);
    let mut r = String::from_str("/");
    r.append(package.as_str());
    r.append(".");
    r.append(s.name.as_str());
    r.append("/");
    r
}

/// The wire paths of the methods of `s`, in order.
pub fn method_paths(s: &ServiceDesc) -> (r: Vec<String>)
    ensures
        r@.len() == s.methods@.len(),
        forall|i: int| 0 <= i < r@.len() ==> #[trigger] r@[i]@ == method_path_of(*s, i),
{
    let prefix = service_prefix(s);
    let mut r: Vec<String> = Vec::new();
    let mut i: usize = 0;
    while i < s.methods.len()
        invariant
            i <= s.methods@.len(),
            r@.len() == i,
            prefix@ == path_prefix(*s),
            forall|k: int| 0 <= k < i ==> #[trigger] r@[k]@ == method_path_of(*s, k),
        decreases s.methods@.len() - i,
    {
        let mut p = String::from_str(prefix.as_str());
        p.append(s.methods[i].name.as_str());
        r.push(p);
        i += 1;
    }
    r
}

fn find_path(s: &ServiceDesc, path: &str) -> (r: Option<usize>)
    ensures
        match path_index(*s, path@) {
            Some(i) => r == Some(i as usize),
            None => r is None,
        },
{
    let paths = method_paths(s);
    let target = String::from_str(path);
    let mut i: usize = 0;
    while i < paths.len()
        invariant
            i <= paths@.len(),
            paths@.len() == s.methods@.len(),
            forall|k: int| 0 <= k < paths@.len() ==> #[trigger] paths@[k]@ == method_path_of(*s, k),
            first_match(*s, path@, i as int) is None,
            target@ == path@,
        decreases paths@.len() - i,
    {
        if paths[i] == target {
            proof {
                lemma_first_match_kept(*s, path@, i + 1, s.methods@.len() as int);
            }
            return Some(i);
        }
        i += 1;
    }
    None
}

/// The variant of an inbound envelope that a message body sent to path
/// `method` decodes into: the index of the method with that path; no path,
/// or one of no method, fails with `Unimplemented`.
pub fn decode_variant(s: &ServiceDesc, method: Option<&str>) -> (r: Result<usize, Status>)
    ensures
        match method {
            Some(p) => match path_index(*s, p@) {
                Some(i) => r == Ok::<usize, Status>(i as usize),
                None => r is Err,
            },
            None => r is Err,
        },
        r is Err ==> r->Err_0.code == Code::Unimplemented && r->Err_0.message@ == "Method not found."@
            && r->Err_0.metadata@.len() == 0,
{
    match method {
        Some(p) => match find_path(s, p) {
            Some(i) => Ok(i),
            None => Err(status(Code::Unimplemented, "Method not found.")),
        },
        None => Err(status(Code::Unimplemented, "Method not found.")),
    }
}

/// The server's router: the index of the method whose path is `path`; a
/// path of no method fails with `Unimplemented` naming the path.
pub fn route(s: &ServiceDesc, path: &str) -> (r: Result<usize, Status>)
    ensures
        match path_index(*s, path@) {
            Some(i) => r == Ok::<usize, Status>(i as usize),
            None => r is Err && r->Err_0.code == Code::Unimplemented
                && r->Err_0.message@ == "Unimplemented http path: "@ + path@
                && r->Err_0.metadata@.len() == 0,
        },
{
    match find_path(s, path) {
        Some(i) => Ok(i),
        None => {
            let mut e = status(Code::Unimplemented, "Unimplemented http path: ");
            e.message.append(path);
            Err(e)
        },
    }
}

/// The messages that the `Ok` items of a stream carry, in order.
pub open spec fn messages_of<M>(items: Seq<Result<M, Status>>) -> Seq<M> {
    items.map_values(|r: Result<M, Status>| r->Ok_0)
}

/// One message sent by a unary client reaches the handler as it was sent,
/// once, with the request's metadata; one message sent back by the handler
/// reaches the client in the same way.
pub proof fn lemma_unary_round_trip<M>(m: M, md: Seq<Header>)
    ensures
        unary_request_outcome(md, one_ok(m), Ok(None)) == Outcome::Delivered(md, m),
        unary_response_outcome(md, one_ok(m), Ok(None)) == Outcome::Delivered(md, m),
{
}

/// The messages of a streaming call arrive all, once each and in the order
/// they were sent: the sender makes each an `Ok` item, every stage between
/// hands the stream on unchanged, and the receiver reads the items back.
pub proof fn lemma_streaming_round_trip<M>(ms: Seq<M>)
    ensures
        all_ok(ms).len() == ms.len(),
        forall|i: int| 0 <= i < ms.len() ==> #[trigger] all_ok(ms)[i] == Ok::<M, Status>(ms[i]),
        messages_of(all_ok(ms)) == ms,
{
    assert(messages_of(all_ok(ms)) =~= ms);
}

/// A unary request or response whose stream ends before any message fails
/// with `Internal`, naming the missing message.
pub proof fn lemma_missing_message<M>(md: Seq<Header>, trailers: Result<Option<Seq<Header>>, Status>)
    ensures
        unary_request_outcome(md, Seq::<Result<M, Status>>::empty(), trailers)
            == Outcome::<M>::Failed(Code::Internal, "Missing request message."@, Seq::empty()),
        unary_response_outcome(md, Seq::<Result<M, Status>>::empty(), trailers)
            == Outcome::<M>::Failed(Code::Internal, "Missing response message."@, Seq::empty()),
{
}

/// A unary response whose stream gives a message and then trailing metadata
/// ends in that message, with the trailing metadata merged after the
/// leading metadata.
pub proof fn lemma_trailer_propagation<M>(
    md: Seq<Header>,
    m: M,
    rest: Seq<Result<M, Status>>,
    trailers: Seq<Header>,
)
    ensures
        unary_response_outcome(md, one_ok(m) + rest, Ok(Some(trailers)))
            == Outcome::Delivered(md + trailers, m),
{
    assert((one_ok(m) + rest)[0] == Ok::<M, Status>(m));
}

} // verus!
