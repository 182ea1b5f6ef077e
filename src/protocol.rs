//! Custom-protocol interception.
//!
//! The engine only filters requests on standard schemes, so a custom scheme
//! `name` is made addressable under the synthetic prefix
//! `file://custom-protocol-<name>`: outbound navigations to `name://...` are
//! rewritten into that form, and intercepted requests are rewritten back
//! before they reach the host's resolver.
use vstd::prelude::*;
use crate::text::{is_prefix, join, replace_prefix, swap_prefix};

verus! {

/// The fixed marker that, followed by a scheme name, forms the synthetic prefix.
pub const SYNTHETIC_MARKER: &'static str = "file://custom-protocol-";

/// What separates a scheme from the rest of a URL.
pub const SCHEME_SEPARATOR: &'static str = "://";

/// The wildcard appended to the synthetic prefix in the request filter.
pub const FILTER_WILDCARD: &'static str = "*";

/// The header prefix under which the resolved MIME type is announced.
pub const CONTENT_TYPE_HEADER: &'static str = "Content-Type: ";

/// The status line of a resolved resource.
pub const STATUS_OK: u16 = 200;

/// The reason phrase of a resolved resource.
pub const REASON_OK: &'static str = "OK";

pub open spec fn synthetic_prefix_of(name: Seq<char>) -> Seq<char> {
    SYNTHETIC_MARKER@ + name
}

pub open spec fn scheme_prefix_of(name: Seq<char>) -> Seq<char> {
    name + SCHEME_SEPARATOR@
}

pub open spec fn filter_of(name: Seq<char>) -> Seq<char> {
    synthetic_prefix_of(name) + FILTER_WILDCARD@
}

/// The path handed to the resolver for an intercepted request URI.
pub open spec fn resolver_path_of(uri: Seq<char>, name: Seq<char>) -> Seq<char> {
    swap_prefix(uri, synthetic_prefix_of(name), scheme_prefix_of(name))
}

/// The URL actually navigated to, given the URL's serialization, its scheme
/// and the registered custom scheme, if any.
pub open spec fn navigation_target_of(
    url: Seq<char>,
    scheme: Seq<char>,
    custom: Option<Seq<char>>,
) -> Seq<char> {
    match custom {
        Some(name) => if name == scheme {
            swap_prefix(url, scheme_prefix_of(name), synthetic_prefix_of(name))
        } else {
            url
        },
        None => url,
    }
}

/// The synthetic prefix under which scheme `name` is intercepted.
pub fn synthetic_prefix(name: &str) -> (r: String)
    ensures
        r@ == synthetic_prefix_of(name@),
{
    join(SYNTHETIC_MARKER, name)
}

/// The scheme prefix `name://`.
pub fn scheme_prefix(name: &str) -> (r: String)
    ensures
        r@ == scheme_prefix_of(name@),
{
    join(name, SCHEME_SEPARATOR)
}

/// The request filter registered for scheme `name`.
pub fn request_filter(name: &str) -> (r: String)
    ensures
        r@ == filter_of(name@),
{
    let p = synthetic_prefix(name);
    join(p.as_str(), FILTER_WILDCARD)
}

/// Undoes the synthetic prefix of an intercepted request URI, giving the
/// `name://...` path that the resolver expects.
pub fn resolver_path(uri: &str, name: &str) -> (r: String)
    ensures
        r@ == resolver_path_of(uri@, name@),
{
    let from = synthetic_prefix(name);
    let to = scheme_prefix(name);
    replace_prefix(uri, from.as_str(), to.as_str())
}

/// The URL to navigate to: a URL of the registered custom scheme is moved
/// under the synthetic prefix, any other URL is kept as it is.
pub fn navigation_url(url: &str, scheme: &str, custom: &Option<String>) -> (r: String)
    ensures
        r@ == navigation_target_of(url@, scheme@, match custom {
            Some(n) => Some(n@),
            None => None,
        }),
{
    match custom {
        Some(name) => {
            let s = String::from_str(scheme);
            if *name == s {
                let from = scheme_prefix(name.as_str());
                let to = synthetic_prefix(name.as_str());
                replace_prefix(url, from.as_str(), to.as_str())
            } else {
                String::from_str(url)
            }
        },
        None => String::from_str(url),
    }
}

/// A response that satisfies an intercepted resource request.
pub struct ResourceResponse {
    pub status: u16,
    pub reason: String,
    pub headers: String,
    pub body: Vec<u8>,
}

/// Why an intercepted resource request could not be satisfied.
#[derive(PartialEq, Eq, Structural, Clone, Copy, Debug)]
pub enum ResourceError {
    /// The resolver reported a failure; no partial content is served.
    LoadFailed,
}

/// The `Content-Type` header announcing `mime`.
pub fn content_type_header(mime: &str) -> (r: String)
    ensures
        r@ == CONTENT_TYPE_HEADER@ + mime@,
{
    join(CONTENT_TYPE_HEADER, mime)
}

/// Turns what the resolver returned into the response for the intercepted
/// request: the content with status 200 and the given MIME type, or a load
/// failure.
pub fn resource_response<E>(resolved: Result<Vec<u8>, E>, mime: &str) -> (r: Result<
    ResourceResponse,
    ResourceError,
>)
    ensures
        resolved is Err <==> r == Err::<ResourceResponse, ResourceError>(ResourceError::LoadFailed),
        resolved is Ok ==> r is Ok && r->Ok_0.status == STATUS_OK && r->Ok_0.reason@ == REASON_OK@
            && r->Ok_0.headers@ == CONTENT_TYPE_HEADER@ + mime@ && r->Ok_0.body@
            == resolved->Ok_0@,
{
    match resolved {
        Ok(content) => Ok(
            ResourceResponse {
                status: STATUS_OK,
                reason: String::from_str(REASON_OK),
                headers: content_type_header(mime),
                body: content,
            },
        ),
        Err(_) => Err(ResourceError::LoadFailed),
    }
}

/// A URL of scheme `name`, navigated to with `name` registered as the custom
/// scheme, lands under the filter's prefix, and the intercepted request is
/// handed to the resolver as the original URL.
pub proof fn lemma_custom_scheme_round_trip(url: Seq<char>, name: Seq<char>)
    requires
        is_prefix(scheme_prefix_of(name), url),
    ensures
        is_prefix(synthetic_prefix_of(name), navigation_target_of(url, name, Some(name))),
        resolver_path_of(navigation_target_of(url, name, Some(name)), name) == url,
{
    let s = scheme_prefix_of(name);
    let p = synthetic_prefix_of(name);
    let rest = url.subrange(s.len() as int, url.len() as int);
    let nav = navigation_target_of(url, name, Some(name));
    assert(nav == p + rest);
    assert(nav.subrange(0, p.len() as int) =~= p);
    assert(nav.subrange(p.len() as int, nav.len() as int) =~= rest);
    assert(url.subrange(0, s.len() as int) == s);
    assert(s + rest =~= url);
}

} // verus!
