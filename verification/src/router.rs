//! The router: picks the handler capability for a request from its
//! method and the first segment of its path.  It never inspects headers
//! or body, owns no state, and every dispatch decision is independent.

use crate::request::HttpRequest;
use crate::request::Method;
use crate::text::spec_split;
use vstd::prelude::*;

verus! {

/// The handler capabilities a request can be dispatched to.
#[derive(Debug, PartialEq, Eq, Structural, Clone, Copy)]
pub enum RouteTarget {
    Api,
    StaticPage,
    NotFound,
}

/// The first path segment after the leading slash: field 1 of the split
/// on `/`, or empty when the path yields fewer than two fields.
pub open spec fn spec_first_segment(path: Seq<char>) -> Seq<char> {
    let parts = spec_split(path, '/');
    if parts.len() >= 2 {
        parts[1]
    } else {
        Seq::<char>::empty()
    }
}

/// Where a request is dispatched: a method other than GET goes to the
/// not-found capability whatever the path; a GET goes to the API
/// capability when its first path segment is the reserved `api` token,
/// and to the static content capability otherwise (the empty segment of
/// the root path included).
pub open spec fn spec_route(m: Method, path: Seq<char>) -> RouteTarget {
    if m != Method::Get {
        RouteTarget::NotFound
    } else if spec_first_segment(path) == "api"@ {
        RouteTarget::Api
    } else {
        RouteTarget::StaticPage
    }
}

/// The stateless dispatcher.
pub struct Router;

impl Router {
    /// Selects the handler capability for a request.
    pub fn select(request: &HttpRequest) -> (t: RouteTarget)
        ensures
            t == spec_route(request.mothod, request.resource@),
    {
        if request.mothod != Method::Get {
            return RouteTarget::NotFound;
        }
        let crate::request::Rescourse::Path(path) = &request.resource;
        let segment = first_segment(path.as_str());
        if crate::text::str_eq(segment.as_str(), "api") {
            RouteTarget::Api
        } else {
            RouteTarget::StaticPage
        }
    }
}

/// The first path segment, as `spec_first_segment` names it.
pub fn first_segment(path: &str) -> (seg: String)
    ensures
        seg@ == spec_first_segment(path@),
{
    let parts = crate::text::split_char(path, '/');
    if parts.len() >= 2 {
        assert(parts.deep_view()[1] == parts@[1]@);
        parts[1].clone()
    } else {
        String::new()
    }
}

/// A request whose method is not GET is dispatched to the not-found
/// capability, whatever its path.
pub proof fn lemma_non_get_routes_not_found(m: Method, path: Seq<char>)
    requires
        m != Method::Get,
    ensures
        spec_route(m, path) == RouteTarget::NotFound,
{
}

} // verus!
