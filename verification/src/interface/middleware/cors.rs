use vstd::prelude::*;

verus! {

/// What the CORS stage does with a request.
#[derive(Debug, Clone, Copy, PartialEq, Eq, Structural)]
pub enum CorsStep {
    /// Answer at once with status 204 and the CORS headers: a preflight
    /// goes no further.
    AnswerPreflight,
    /// Hand the request on, and put the CORS headers on whatever answer
    /// comes back, an error too.
    Forward,
}

/// The names and values of the CORS headers, in the order in which they are
/// set.
pub open spec fn cors_header_table() -> Seq<(Seq<char>, Seq<char>)> {
    seq![
        ("access-control-allow-origin"@, "*"@),
        ("access-control-allow-credentials"@, "true"@),
        ("access-control-allow-methods"@, "GET, POST, PUT, DELETE, PATCH, OPTIONS"@),
        (
            "access-control-allow-headers"@,
            "Content-Type, Authorization, X-Requested-With, Accept, Origin, Access-Control-Request-Method, Access-Control-Request-Headers"@,
        ),
        (
            "access-control-expose-headers"@,
            "Content-Length, Access-Control-Allow-Origin, Access-Control-Allow-Headers"@,
        ),
        ("access-control-max-age"@, "86400"@),
    ]
}

/// The view of a list of header names and values.
pub open spec fn header_views(headers: Seq<(&'static str, &'static str)>) -> Seq<
    (Seq<char>, Seq<char>),
> {
    Seq::new(headers.len(), |i: int| (headers[i].0@, headers[i].1@))
}

/// The CORS headers that every answer carries.
pub fn cors_headers() -> (r: Vec<(&'static str, &'static str)>)
    ensures
        header_views(r@) == cors_header_table(),
{
    let mut headers: Vec<(&'static str, &'static str)> = Vec::new();
    headers.push(("access-control-allow-origin", "*"));
    headers.push(("access-control-allow-credentials", "true"));
    headers.push(("access-control-allow-methods", "GET, POST, PUT, DELETE, PATCH, OPTIONS"));
    headers.push(
        (
            "access-control-allow-headers",
            "Content-Type, Authorization, X-Requested-With, Accept, Origin, Access-Control-Request-Method, Access-Control-Request-Headers",
        ),
    );
    headers.push(
        (
            "access-control-expose-headers",
            "Content-Length, Access-Control-Allow-Origin, Access-Control-Allow-Headers",
        ),
    );
    headers.push(("access-control-max-age", "86400"));
    assert(header_views(headers@) =~= cors_header_table());
    headers
}

/// Decides what the CORS stage does with a request of the given method: a
/// request with method `OPTIONS` is a preflight.
pub fn handle(method: &str) -> (r: CorsStep)
    ensures
        r == if method@ == "OPTIONS"@ {
            CorsStep::AnswerPreflight
        } else {
            CorsStep::Forward
        },
{
    if method.to_owned() == "OPTIONS".to_owned() {
        CorsStep::AnswerPreflight
    } else {
        CorsStep::Forward
    }
}

} // verus!
