use vstd::prelude::*;

verus! {

/// The scheme that is served without a redirect.
pub open spec fn secure_scheme() -> Seq<char> {
    seq!['h', 't', 't', 'p', 's']
}

/// What a redirect target starts with: `https://`.
pub open spec fn secure_prefix() -> Seq<char> {
    secure_scheme() + seq![':', '/', '/']
}

/// The target of the redirect for a request to `host` with `path_and_query`:
/// the same URL with `https` as its scheme.
pub open spec fn redirect_target(host: Seq<char>, path_and_query: Seq<char>) -> Seq<char> {
    secure_prefix() + host + path_and_query
}

/// Status of a permanent redirect (Moved Permanently).
pub const MOVED_PERMANENTLY: u16 = 301;

/// What the HTTPS enforcement does with one request.
pub enum SchemeDecision {
    /// The request came over HTTPS: hand it on unchanged.
    Forward,
    /// Answer at once with `status` and a `Location` header of `location`.
    Redirect { status: u16, location: String },
}

/// Whether `scheme` is exactly `https`.
pub fn is_https(scheme: &str) -> (r: bool)
    ensures
        r == (scheme@ == secure_scheme()),
{
    let n = scheme.unicode_len();
    if n != 5 {
        return false;
    }
    let c0 = scheme.get_char(0);
    let c1 = scheme.get_char(1);
    let c2 = scheme.get_char(2);
    let c3 = scheme.get_char(3);
    let c4 = scheme.get_char(4);
    let r = c0 == 'h' && c1 == 't' && c2 == 't' && c3 == 'p' && c4 == 's';
    if r {
        assert(scheme@ =~= secure_scheme());
    }
    r
}

/// The `Location` of the redirect: `https://<host><path_and_query>`.
pub fn redirect_location(host: &str, path_and_query: &str) -> (r: String)
    ensures
        r@ == redirect_target(host@, path_and_query@),
{
    let mut r = String::from_str("https://");
    proof {
        reveal_strlit("https://");
        assert(r@ =~= secure_prefix());
    }
    r.append(host);
    r.append(path_and_query);
    r
}

/// Decides one request: one that came over HTTPS is forwarded, any other is
/// answered with a permanent redirect to the HTTPS form of the same URL.
pub fn enforce_https(scheme: &str, host: &str, path_and_query: &str) -> (d: SchemeDecision)
    ensures
        scheme@ == secure_scheme() ==> d is Forward,
        scheme@ != secure_scheme() ==> (d matches SchemeDecision::Redirect { status, location }
            && status == MOVED_PERMANENTLY
            && location@ == redirect_target(host@, path_and_query@)),
{
    if is_https(scheme) {
        SchemeDecision::Forward
    } else {
        SchemeDecision::Redirect {
            status: MOVED_PERMANENTLY,
            location: redirect_location(host, path_and_query),
        }
    }
}

} // verus!
