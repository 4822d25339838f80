//! Plain-value HTTP responses and the router.
//!
//! A response is modeled by its status, its text body, and the two
//! cross-origin headers this system ever sets.  The surrounding server turns
//! a [`HttpResponse`] into transport bytes; in that model response
//! construction cannot fail, so the substitute-a-500 recovery path of a
//! byte-level response builder has no counterpart here.

use vstd::prelude::*;

use crate::RequestContext;
use crate::RequestContextView;

verus! {

/// An outbound response: status code, plain-text body, and the two
/// cross-origin headers (absent until the finisher sets them).
pub struct HttpResponse {
    pub status: u16,
    pub body: String,
    pub allow_origin: Option<String>,
    pub allow_headers: Option<String>,
}

/// Ghost shape of a [`HttpResponse`].
#[verifier::ext_equal]
pub struct HttpResponseView {
    pub status: u16,
    pub body: Seq<char>,
    pub allow_origin: Option<Seq<char>>,
    pub allow_headers: Option<Seq<char>>,
}

impl View for HttpResponse {
    type V = HttpResponseView;

    open spec fn view(&self) -> HttpResponseView {
        HttpResponseView {
            status: self.status,
            body: self.body@,
            allow_origin: match self.allow_origin {
                Some(ref o) => Some(o@),
                None => None,
            },
            allow_headers: match self.allow_headers {
                Some(ref h) => Some(h@),
                None => None,
            },
        }
    }
}

/// A bare response with the given status and body and no headers yet.
pub open spec fn spec_bare_response(status: u16, body: Seq<char>) -> HttpResponseView {
    HttpResponseView { status, body, allow_origin: None, allow_headers: None }
}

/// A 403 response.
pub fn forbidden() -> (r: HttpResponse)
    ensures
        r@ == spec_bare_response(403, "403 Forbidden"@),
{
    let r = HttpResponse {
        status: 403,
        body: String::from_str("403 Forbidden"),
        allow_origin: None,
        allow_headers: None,
    };
    proof {
        assert(r@ =~= spec_bare_response(403, "403 Forbidden"@));
    }
    r
}

/// A 404 response.
pub fn not_found() -> (r: HttpResponse)
    ensures
        r@ == spec_bare_response(404, "404 Not found"@),
{
    let r = HttpResponse {
        status: 404,
        body: String::from_str("404 Not found"),
        allow_origin: None,
        allow_headers: None,
    };
    proof {
        assert(r@ =~= spec_bare_response(404, "404 Not found"@));
    }
    r
}

/// A 500 response, the single local recovery path of the system.
pub fn internal_server_error() -> (r: HttpResponse)
    ensures
        r@ == spec_bare_response(500, "500 Internal Server Error"@),
{
    let r = HttpResponse {
        status: 500,
        body: String::from_str("500 Internal Server Error"),
        allow_origin: None,
        allow_headers: None,
    };
    proof {
        assert(r@ =~= spec_bare_response(500, "500 Internal Server Error"@));
    }
    r
}

/// What the router answers for a classified request, before the finisher
/// adds the cross-origin headers.
pub open spec fn spec_dispatch(ctx: RequestContextView) -> HttpResponseView {
    if ctx.path == "<options>"@ {
        spec_bare_response(200, "OK"@)
    } else if ctx.path == "/"@ {
        spec_bare_response(200, ctx.user_id)
    } else if ctx.path == "<forbidden>"@ {
        spec_bare_response(403, "403 Forbidden"@)
    } else {
        spec_bare_response(404, "404 Not found"@)
    }
}

/// The router: maps the symbolic path of a classified request to a response.
/// Preflight requests get a bare `"OK"`, the root route echoes the
/// authenticated user id, unauthenticated requests get a 403, and every
/// unmatched real path gets a 404.
pub fn dispatch(ctx: &RequestContext) -> (r: HttpResponse)
    ensures
        r@ == spec_dispatch(ctx@),
{
    if ctx.path == String::from_str("<options>") {
        crate::cors::ok()
    } else if ctx.path == String::from_str("/") {
        let r = HttpResponse {
            status: 200,
            body: ctx.user_id.clone(),
            allow_origin: None,
            allow_headers: None,
        };
        proof {
            assert(r@ =~= spec_bare_response(200, ctx@.user_id));
        }
        r
    } else if ctx.path == String::from_str("<forbidden>") {
        forbidden()
    } else {
        not_found()
    }
}

} // verus!
