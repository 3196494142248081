//! The decision half of each handler capability.  Reading files, the
//! lookup root and JSON encoding live with the caller outside the
//! engine; the functions here make every decision — which file a path
//! asks for, which content type and status the outcome carries — from
//! plain values, and build the response.  They never fail: a lookup
//! that produced nothing becomes a valid not-found response.

use crate::headers::HeaderMap;
use crate::request::Version;
use crate::response::HttpResponse;
use crate::response::HttpStatus;
use crate::router::spec_first_segment;
use crate::text::spec_ends_with;
use crate::text::spec_split;
use vstd::prelude::*;
use vstd::string::StrSliceExecFns;
use vstd::string::StringExecFns;

verus! {

/// Serves static pages: the root and `health` paths map to fixed
/// pages, any other first segment names the file itself.
pub struct StaticPageHandler;

/// Serves the not-found response, around optional on-disk 404 content.
pub struct PageNotFoundHandler;

/// Serves the JSON order listing under the reserved API routes.
pub struct WebServiceHandler;

/// The spec-level picture of one shipping order.
pub ghost struct OrderModel {
    pub order_id: u32,
    pub order_date: Seq<char>,
    pub order_status: bool,
}

/// One shipping order, as the JSON service stores and encodes it.
pub struct OrderStatus {
    order_id: u32,
    order_date: String,
    order_status: bool,
}

impl View for OrderStatus {
    type V = OrderModel;

    closed spec fn view(&self) -> OrderModel {
        OrderModel {
            order_id: self.order_id,
            order_date: self.order_date@,
            order_status: self.order_status,
        }
    }
}

impl OrderStatus {
    pub fn new(order_id: u32, order_date: String, order_status: bool) -> (o: OrderStatus)
        ensures
            o@.order_id == order_id,
            o@.order_date == order_date@,
            o@.order_status == order_status,
    {
        OrderStatus { order_id, order_date, order_status }
    }

    pub fn order_id(&self) -> (r: u32)
        ensures
            r == self@.order_id,
    {
        self.order_id
    }

    pub fn order_date(&self) -> (d: &str)
        ensures
            d@ == self@.order_date,
    {
        self.order_date.as_str()
    }

    pub fn order_status(&self) -> (r: bool)
        ensures
            r == self@.order_status,
    {
        self.order_status
    }
}

impl PageNotFoundHandler {
    /// Builds the not-found response around whatever 404 page content
    /// the file lookup produced.
    pub fn handle(not_found_page: Option<String>) -> (r: HttpResponse)
        ensures
            r@.version == Version::V1_1,
            r@.status == HttpStatus::NOT_FOUND,
            r@.headers is None,
            r@.body == not_found_page.deep_view(),
    {
        HttpResponse::new(Version::V1_1, HttpStatus::NOT_FOUND, None, not_found_page)
    }
}

/// The file a request path asks the static handler to load: the fixed
/// index and health pages for the root and `health` segments, otherwise
/// the first path segment itself.
pub open spec fn spec_static_file(path: Seq<char>) -> Seq<char> {
    let seg = spec_first_segment(path);
    if seg.len() == 0 {
        "index.html"@
    } else if seg == "health"@ {
        "health.html"@
    } else {
        seg
    }
}

/// The content type a found file is served with, picked by its suffix.
pub open spec fn spec_content_type_for(seg: Seq<char>) -> Seq<char> {
    if spec_ends_with(seg, ".css"@) {
        "text/css"@
    } else if spec_ends_with(seg, ".js"@) {
        "text/javascript"@
    } else {
        "text/html"@
    }
}

impl StaticPageHandler {
    /// Names the file the request path asks for.
    pub fn file_for(path: &str) -> (f: String)
        ensures
            f@ == spec_static_file(path@),
    {
        let seg = crate::router::first_segment(path);
        if seg.as_str().unicode_len() == 0 {
            String::from_str("index.html")
        } else if crate::text::str_eq(seg.as_str(), "health") {
            String::from_str("health.html")
        } else {
            seg
        }
    }

    /// Builds the static-content response from the request path and the
    /// outcome of the file lookup: the fixed pages are served with the
    /// defaulted headers; any other segment that was found is served
    /// with a content type picked by its suffix; one that was not found
    /// becomes the not-found response around the fallback page.
    pub fn handle(path: &str, loaded: Option<String>, not_found_page: Option<String>) -> (r:
        HttpResponse)
        ensures
            r@.version == Version::V1_1,
            ({
                let seg = spec_first_segment(path@);
                if seg.len() == 0 || seg == "health"@ {
                    &&& r@.status == HttpStatus::OK
                    &&& r@.headers is None
                    &&& r@.body == loaded.deep_view()
                } else {
                    match loaded {
                        Some(contents) => {
                            &&& r@.status == HttpStatus::OK
                            &&& r@.headers == Some(
                                seq![("Content-Type"@, spec_content_type_for(seg))],
                            )
                            &&& r@.body == Some(contents@)
                        },
                        None => {
                            &&& r@.status == HttpStatus::NOT_FOUND
                            &&& r@.headers is None
                            &&& r@.body == not_found_page.deep_view()
                        },
                    }
                }
            }),
    {
        let seg = crate::router::first_segment(path);
        if seg.as_str().unicode_len() == 0 || crate::text::str_eq(seg.as_str(), "health") {
            HttpResponse::new(Version::V1_1, HttpStatus::OK, None, loaded)
        } else {
            match loaded {
                Some(contents) => {
                    let content_type = if crate::text::str_ends_with(seg.as_str(), ".css") {
                        String::from_str("text/css")
                    } else if crate::text::str_ends_with(seg.as_str(), ".js") {
                        String::from_str("text/javascript")
                    } else {
                        String::from_str("text/html")
                    };
                    let mut headers = HeaderMap::new();
                    headers.insert(String::from_str("Content-Type"), content_type);
                    proof {
                        assert(headers@ =~= seq![
                            ("Content-Type"@, spec_content_type_for(seg@)),
                        ]);
                    }
                    HttpResponse::new(Version::V1_1, HttpStatus::OK, Some(headers), Some(contents))
                },
                None => HttpResponse::new(
                    Version::V1_1,
                    HttpStatus::NOT_FOUND,
                    None,
                    not_found_page,
                ),
            }
        }
    }
}

/// Whether a path names the shipping-orders route: its second and third
/// segments after the leading slash are `shipping` and `orders`.
pub open spec fn spec_is_orders_route(path: Seq<char>) -> bool {
    let parts = spec_split(path, '/');
    parts.len() > 3 && parts[2] == "shipping"@ && parts[3] == "orders"@
}

impl WebServiceHandler {
    /// Decides whether a path names the shipping-orders route.
    pub fn is_orders_route(path: &str) -> (r: bool)
        ensures
            r == spec_is_orders_route(path@),
    {
        let parts = crate::text::split_char(path, '/');
        if parts.len() > 3 {
            assert(parts.deep_view()[2] == parts@[2]@);
            assert(parts.deep_view()[3] == parts@[3]@);
            crate::text::str_eq(parts[2].as_str(), "shipping") && crate::text::str_eq(
                parts[3].as_str(),
                "orders",
            )
        } else {
            false
        }
    }

    /// Builds the JSON service response from the request path and the
    /// encoded order listing: the orders route with a listing in hand is
    /// served as JSON; anything else — the wrong route, or a listing the
    /// lookup could not produce — becomes the not-found response around
    /// the fallback page.
    pub fn handle(path: &str, orders_json: Option<String>, not_found_page: Option<String>) -> (r:
        HttpResponse)
        ensures
            r@.version == Version::V1_1,
            ({
                match orders_json {
                    Some(json) => {
                        if spec_is_orders_route(path@) {
                            &&& r@.status == HttpStatus::OK
                            &&& r@.headers == Some(seq![("Content-Type"@, "application/json"@)])
                            &&& r@.body == Some(json@)
                        } else {
                            &&& r@.status == HttpStatus::NOT_FOUND
                            &&& r@.headers is None
                            &&& r@.body == not_found_page.deep_view()
                        }
                    },
                    None => {
                        &&& r@.status == HttpStatus::NOT_FOUND
                        &&& r@.headers is None
                        &&& r@.body == not_found_page.deep_view()
                    },
                }
            }),
    {
        let on_route = Self::is_orders_route(path);
        match orders_json {
            Some(json) if on_route => {
                let mut headers = HeaderMap::new();
                headers.insert(
                    String::from_str("Content-Type"),
                    String::from_str("application/json"),
                );
                proof {
                    assert(headers@ =~= seq![("Content-Type"@, "application/json"@)]);
                }
                HttpResponse::new(Version::V1_1, HttpStatus::OK, Some(headers), Some(json))
            },
            _ => HttpResponse::new(Version::V1_1, HttpStatus::NOT_FOUND, None, not_found_page),
        }
    }
}

} // verus!
