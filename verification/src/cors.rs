//! The fixed cross-origin policy.
//!
//! The declared `Origin` header is lower-cased and looked up in a two-entry
//! allow-list; anything else falls back to the default origin.  Every
//! outgoing response gets the resolved origin echoed back by the finisher.

use vstd::prelude::*;

use crate::HeaderField;
use crate::HeaderFieldView;
use crate::RequestContext;
use crate::http::HttpResponse;
use crate::http::spec_bare_response;

verus! {

/// ASCII lower-casing of one character.  The allow-list holds only ASCII
/// strings, so folding the ASCII range alone decides membership exactly.
pub open spec fn lower_char(c: char) -> char {
    if 'A' <= c && c <= 'Z' {
        (((c as u8) + 32) as char)
    } else {
        c
    }
}

/// ASCII lower-casing of a string.
pub open spec fn spec_lower(s: Seq<char>) -> Seq<char> {
    s.map_values(|c: char| lower_char(c))
}

/// The origin echoed back for a request with the given `Origin` header:
/// `"http://localhost:3000"` (after lower-casing) is echoed as itself, and
/// every other value, an undecodable header, and a missing header all fall
/// back to `"http://localhost:5000"`.
pub open spec fn spec_cors_host(origin: HeaderFieldView) -> Seq<char> {
    match origin {
        HeaderFieldView::Present(s) => if spec_lower(s) == "http://localhost:3000"@ {
            "http://localhost:3000"@
        } else {
            "http://localhost:5000"@
        },
        HeaderFieldView::Absent => "http://localhost:5000"@,
        HeaderFieldView::Undecodable => "http://localhost:5000"@,
    }
}

/// Does `s` lower-case (ASCII) to exactly `target`?
fn lowered_matches(s: &str, target: &str) -> (b: bool)
    ensures
        b == (spec_lower(s@) == target@),
{
    let n = s.unicode_len();
    let m = target.unicode_len();
    if n != m {
        proof {
            assert(spec_lower(s@).len() == s@.len());
        }
        return false;
    }
    let mut i: usize = 0;
    while i < n
        invariant
            i <= n,
            n == s@.len(),
            n == target@.len(),
            forall|j: int| 0 <= j < i ==> spec_lower(s@)[j] == target@[j],
        decreases n - i,
    {
        let c = s.get_char(i);
        let folded = if 'A' <= c && c <= 'Z' {
            (((c as u8) + 32) as char)
        } else {
            c
        };
        proof {
            assert(folded == lower_char(s@[i as int]));
            assert(spec_lower(s@)[i as int] == lower_char(s@[i as int]));
        }
        if folded != target.get_char(i) {
            proof {
                assert(spec_lower(s@)[i as int] != target@[i as int]);
            }
            return false;
        }
        i += 1;
    }
    proof {
        assert(spec_lower(s@) =~= target@);
    }
    true
}

/// The origin policy: resolves the declared `Origin` header through the
/// allow-list.  Pure, never fails, and never rejects: an unknown origin gets
/// the default, not an error.
pub fn cors_host(origin: &HeaderField) -> (o: String)
    ensures
        o@ == spec_cors_host(origin@),
{
    match origin {
        HeaderField::Present(s) => {
            if lowered_matches(s.as_str(), "http://localhost:3000") {
                String::from_str("http://localhost:3000")
            } else {
                String::from_str("http://localhost:5000")
            }
        },
        HeaderField::Absent => String::from_str("http://localhost:5000"),
        HeaderField::Undecodable => String::from_str("http://localhost:5000"),
    }
}

/// The response finisher: sets `Access-Control-Allow-Origin` to the
/// context's resolved origin and `Access-Control-Allow-Headers` to
/// `"authorization"` on every response, leaving status and body alone.
pub fn inject_headers(ctx: &RequestContext, res: &mut HttpResponse)
    ensures
        final(res)@.status == old(res)@.status,
        final(res)@.body == old(res)@.body,
        final(res)@.allow_origin == Some(ctx@.cors_allowed_origin),
        final(res)@.allow_headers == Some("authorization"@),
{
    res.allow_origin = Some(ctx.cors_allowed_origin.clone());
    res.allow_headers = Some(String::from_str("authorization"));
}

/// A 200 response with body `"OK"`, the answer to every preflight request.
pub fn ok() -> (r: HttpResponse)
    ensures
        r@ == spec_bare_response(200, "OK"@),
{
    let r = HttpResponse {
        status: 200,
        body: String::from_str("OK"),
        allow_origin: None,
        allow_headers: None,
    };
    proof {
        assert(r@ =~= spec_bare_response(200, "OK"@));
    }
    r
}

} // verus!
