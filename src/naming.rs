use vstd::prelude::*;
use vstd::string::*;

verus! {

/// The lower, underscore-separated form of an identifier.
pub uninterp spec fn snake_of(s: Seq<char>) -> Seq<char>;

/// The upper camel form of an identifier.
pub uninterp spec fn camel_of(s: Seq<char>) -> Seq<char>;

/// Relies on heck's `ToSnakeCase::to_snake_case` for `str`, whose result
/// depends on the characters of its argument alone.
#[verifier::external_body]
pub(crate) fn snake_case(s: &str) -> (r: String)
    ensures
        r@ == snake_of(s@),
{
    heck::ToSnakeCase::to_snake_case(s)
}

/// Relies on heck's `ToUpperCamelCase::to_upper_camel_case` for `str`, whose
/// result depends on the characters of its argument alone.
#[verifier::external_body]
pub(crate) fn upper_camel_case(s: &str) -> (r: String)
    ensures
        r@ == camel_of(s@),
{
    heck::ToUpperCamelCase::to_upper_camel_case(s)
}

/// The segments joined with dots between them.
pub open spec fn dotted(parts: Seq<Seq<char>>) -> Seq<char>
    decreases parts.len(),
{
    if parts.len() == 0 {
        Seq::empty()
    } else if parts.len() == 1 {
        parts[0]
    } else {
        dotted(parts.drop_last()) + "."@ + parts.last()
    }
}

pub open spec fn views(v: Seq<String>) -> Seq<Seq<char>> {
    v.map_values(|s: String| s@)
}

/// Joins the package segments with dots.
pub fn join_dotted(parts: &Vec<String>) -> (r: String)
    ensures
        r@ == dotted(views(parts@)),
{
    let mut r = String::new();
    let mut i: usize = 0;
    while i < parts.len()
        invariant
            i <= parts@.len(),
            r@ == dotted(views(parts@.subrange(0, i as int))),
        decreases parts@.len() - i,
    {
        let ghost pre = views(parts@.subrange(0, i as int));
        let ghost post = views(parts@.subrange(0, i + 1));
        assert(post.drop_last() =~= pre);
        if i > 0 {
            r.append(".");
        }
        r.append(parts[i].as_str());
        i += 1;
    }
    assert(parts@.subrange(0, parts@.len() as int) =~= parts@);
    r
}

/// The wire path of a method: `/{package}.{service}/{method}`.
pub open spec fn path_of(package: Seq<Seq<char>>, service: Seq<char>, method: Seq<char>) -> Seq<char> {
    "/"@ + dotted(package) + "."@ + service + "/"@ + method
}

/// Builds the wire path of `method` in `service` of the package `package`.
pub fn method_path(package: &Vec<String>, service: &str, method: &str) -> (r: String)
    ensures
        r@ == path_of(views(package@), service@, method@),
{
    let dotted_package = join_dotted(package);
    let mut r = String::from_str("/");
    r.append(dotted_package.as_str());
    r.append(".");
    r.append(service);
    r.append("/");
    r.append(method);
    r
}

} // verus!
