//! A minimal HTTP front door.
//!
//! Each inbound request is authenticated against a remote identity provider,
//! a fixed cross-origin policy picks the origin to echo back, and the request
//! is dispatched to one of a handful of exact-path routes.  The pipeline is
//! pure: the surrounding server hands it the request's visible data and the
//! identity provider's reply as plain values, and gets a response value back.

use vstd::prelude::*;

pub mod auth;
pub mod cors;
pub mod http;

verus! {

/// The value of a single request header, as the transport handed it over.
///
/// `Undecodable` stands for a header that is present on the wire but whose
/// bytes are not valid text; the pipeline treats it like a missing header.
pub enum HeaderField {
    Absent,
    Undecodable,
    Present(String),
}

/// Ghost shape of a [`HeaderField`]: the same three cases over a character
/// sequence.
#[verifier::ext_equal]
pub enum HeaderFieldView {
    Absent,
    Undecodable,
    Present(Seq<char>),
}

impl View for HeaderField {
    type V = HeaderFieldView;

    open spec fn view(&self) -> HeaderFieldView {
        match self {
            HeaderField::Absent => HeaderFieldView::Absent,
            HeaderField::Undecodable => HeaderFieldView::Undecodable,
            HeaderField::Present(s) => HeaderFieldView::Present(s@),
        }
    }
}

/// The parts of an inbound HTTP request that the pipeline reads: the method,
/// the URI path, and the two recognized headers.
pub struct RequestData {
    pub method: String,
    pub path: String,
    pub authorization: HeaderField,
    pub origin: HeaderField,
}

/// Ghost shape of a [`RequestData`].
#[verifier::ext_equal]
pub struct RequestDataView {
    pub method: Seq<char>,
    pub path: Seq<char>,
    pub authorization: HeaderFieldView,
    pub origin: HeaderFieldView,
}

impl View for RequestData {
    type V = RequestDataView;

    open spec fn view(&self) -> RequestDataView {
        RequestDataView {
            method: self.method@,
            path: self.path@,
            authorization: self.authorization@,
            origin: self.origin@,
        }
    }
}

/// The outcome of classifying one request: the origin to echo back, the
/// symbolic path the dispatcher switches on, and the authenticated user id.
///
/// The symbolic path is either the request's real URI path or one of the two
/// sentinels `"<options>"` (preflight) and `"<forbidden>"` (unauthenticated);
/// the sentinels contain characters that cannot appear in a URI path, so a
/// real route can never collide with them.
pub struct RequestContext {
    pub cors_allowed_origin: String,
    pub path: String,
    pub user_id: String,
}

/// Ghost shape of a [`RequestContext`].
#[verifier::ext_equal]
pub struct RequestContextView {
    pub cors_allowed_origin: Seq<char>,
    pub path: Seq<char>,
    pub user_id: Seq<char>,
}

impl View for RequestContext {
    type V = RequestContextView;

    open spec fn view(&self) -> RequestContextView {
        RequestContextView {
            cors_allowed_origin: self.cors_allowed_origin@,
            path: self.path@,
            user_id: self.user_id@,
        }
    }
}

/// A context is well formed when the user id is non-empty exactly on real
/// (dispatched) paths: preflight and forbidden requests carry no identity.
pub open spec fn context_wf(ctx: RequestContextView) -> bool {
    (ctx.path != "<options>"@ && ctx.path != "<forbidden>"@) <==> ctx.user_id.len() > 0
}

/// The user id the classifier records: empty for a preflight request, empty
/// when no usable credential was presented, and otherwise whatever the
/// provider's reply resolves to.
pub open spec fn spec_user_id(req: RequestDataView, reply: auth::ProviderReplyView) -> Seq<
    char,
> {
    if req.method == "OPTIONS"@ {
        Seq::<char>::empty()
    } else if auth::spec_access_token(req.authorization).len() == 0 {
        Seq::<char>::empty()
    } else {
        auth::spec_subject_of(reply)
    }
}

/// The symbolic path the classifier records: the preflight sentinel for an
/// `OPTIONS` request, the forbidden sentinel when no user was resolved, and
/// the request's real URI path otherwise.
pub open spec fn spec_symbolic_path(req: RequestDataView, reply: auth::ProviderReplyView) -> Seq<
    char,
> {
    if req.method == "OPTIONS"@ {
        "<options>"@
    } else if spec_user_id(req, reply).len() == 0 {
        "<forbidden>"@
    } else {
        req.path
    }
}

/// What classifying a request yields, as a function of the request's
/// visible data and the provider's reply.
pub open spec fn spec_classify(
    req: RequestDataView,
    reply: auth::ProviderReplyView,
) -> RequestContextView {
    RequestContextView {
        cors_allowed_origin: cors::spec_cors_host(req.origin),
        path: spec_symbolic_path(req, reply),
        user_id: spec_user_id(req, reply),
    }
}

/// The classifier: turns a request and the identity provider's reply into a
/// routing decision.  `OPTIONS` requests skip verification entirely; a
/// request without a resolved user is marked forbidden; the allowed origin
/// is always resolved, whatever the authentication outcome.  Callers that
/// made no provider call (see [`auth::plan_verification`]) pass
/// [`auth::ProviderReply::Unreachable`]; the result then does not depend on
/// it.
pub fn classify(req: &RequestData, reply: &auth::ProviderReply) -> (ctx: RequestContext)
    ensures
        ctx@ == spec_classify(req@, reply@),
{
    let is_options = req.method == String::from_str("OPTIONS");
    let user_id: String = if is_options {
        String::new()
    } else {
        let token = auth::access_token(&req.authorization);
        if token.as_str().is_empty() {
            String::new()
        } else {
            auth::subject_from_reply(reply)
        }
    };
    let path: String = if is_options {
        String::from_str("<options>")
    } else if user_id.as_str().is_empty() {
        String::from_str("<forbidden>")
    } else {
        req.path.clone()
    };
    let ctx = RequestContext { cors_allowed_origin: cors::cors_host(&req.origin), path, user_id };
    proof {
        assert(ctx@ =~= spec_classify(req@, reply@));
    }
    ctx
}

/// A finished response: the routed status and body with the two
/// cross-origin headers set.
pub open spec fn spec_finish(
    resp: http::HttpResponseView,
    allowed_origin: Seq<char>,
) -> http::HttpResponseView {
    http::HttpResponseView {
        status: resp.status,
        body: resp.body,
        allow_origin: Some(allowed_origin),
        allow_headers: Some("authorization"@),
    }
}

/// The response to a request, as a function of its visible data and the
/// provider's reply: classify, dispatch, then finish.
pub open spec fn spec_handle(
    req: RequestDataView,
    reply: auth::ProviderReplyView,
) -> http::HttpResponseView {
    spec_finish(http::spec_dispatch(spec_classify(req, reply)), cors::spec_cors_host(req.origin))
}

/// The whole pipeline for one request: classification, dispatch, and the
/// cross-origin finisher.
pub fn handle(req: &RequestData, reply: &auth::ProviderReply) -> (r: http::HttpResponse)
    ensures
        r@ == spec_handle(req@, reply@),
{
    let ctx = classify(req, reply);
    let mut res = http::dispatch(&ctx);
    cors::inject_headers(&ctx, &mut res);
    proof {
        assert(res@ =~= spec_handle(req@, reply@));
    }
    res
}

/// Is `s` a non-empty string of decimal digits?
pub open spec fn spec_is_decimal(s: Seq<char>) -> bool {
    s.len() > 0 && (forall|i: int| 0 <= i < s.len() ==> '0' <= #[trigger] s[i] && s[i] <= '9')
}

/// The number a string of decimal digits denotes.
pub open spec fn spec_decimal_value(s: Seq<char>) -> int
    decreases s.len(),
{
    if s.len() == 0 {
        0
    } else {
        spec_decimal_value(s.drop_last()) * 10 + (s.last() as int - '0' as int)
    }
}

/// The digit portion of a configured port value: what stands after one
/// optional leading `+` sign, which unsigned decimal parsing accepts.
pub open spec fn spec_port_digits(s: Seq<char>) -> Seq<char> {
    if s.len() > 0 && s[0] == '+' {
        s.subrange(1, s.len() as int)
    } else {
        s
    }
}

/// The port to listen on, given the configured value: a decimal number
/// (with one optional leading `+`) that fits a port is taken as it stands,
/// and a missing, non-numeric, or oversized value falls back to the
/// default port 80.
pub open spec fn spec_port(value: Option<Seq<char>>) -> u16 {
    match value {
        None => 80,
        Some(s) => if spec_is_decimal(spec_port_digits(s)) && spec_decimal_value(
            spec_port_digits(s),
        ) <= 65535 {
            spec_decimal_value(spec_port_digits(s)) as u16
        } else {
            80
        },
    }
}

/// Resolves the configured listen port, falling back to 80 on a missing or
/// unusable value.
#[verifier::loop_isolation(false)]
pub fn configured_port(value: &Option<String>) -> (p: u16)
    ensures
        p == spec_port(value.deep_view()),
{
    match value {
        None => 80,
        Some(s) => {
            let n = s.as_str().unicode_len();
            if n == 0 {
                return 80;
            }
            let start: usize = if s.as_str().get_char(0) == '+' {
                1
            } else {
                0
            };
            let ghost digits = spec_port_digits(s@);
            proof {
                assert(digits =~= s@.subrange(start as int, n as int));
            }
            if start == n {
                return 80;
            }
            let mut i: usize = start;
            let mut acc: u32 = 0;
            while i < n
                invariant
                    start <= i <= n,
                    n == s@.len(),
                    start < n,
                    forall|j: int| start <= j < i ==> '0' <= #[trigger] s@[j] && s@[j] <= '9',
                    spec_decimal_value(digits.subrange(0, i - start)) <= 65535 ==> acc
                        == spec_decimal_value(digits.subrange(0, i - start)),
                    spec_decimal_value(digits.subrange(0, i - start)) > 65535 ==> acc == 100000,
                    acc <= 100000,
                decreases n - i,
            {
                let c = s.as_str().get_char(i);
                if c < '0' || c > '9' {
                    proof {
                        assert(digits[i - start] == s@[i as int]);
                        assert(!spec_is_decimal(digits));
                    }
                    return 80;
                }
                let d: u32 = (c as u32) - ('0' as u32);
                let ghost prefix = digits.subrange(0, i - start);
                let ghost grown = digits.subrange(0, i + 1 - start);
                proof {
                    assert(grown.drop_last() =~= prefix);
                    assert(grown.last() == s@[i as int]);
                }
                acc = acc * 10 + d;
                if acc > 65535 {
                    acc = 100000;
                }
                i += 1;
            }
            proof {
                assert(digits.subrange(0, n - start) =~= digits);
                assert(spec_is_decimal(digits));
            }
            if acc <= 65535 {
                acc as u16
            } else {
                80
            }
        },
    }
}

/// A preflight request is answered 200 with body `"OK"`, and identity
/// verification is never asked for: for every `OPTIONS` request, the
/// classifier needs no provider call, and the response does not depend on
/// any reply at all.
pub proof fn lemma_preflight(req: RequestData, reply: auth::ProviderReply)
    requires
        req@.method == "OPTIONS"@,
    ensures
        !auth::spec_needs_verification(req@),
        spec_handle(req@, reply@).status == 200,
        spec_handle(req@, reply@).body == "OK"@,
{
}

/// A request that is no preflight and carries an absent or undecodable
/// `Authorization` header is answered 403 with body `"403 Forbidden"`,
/// whatever its path and whatever the provider would have replied.
/// (A preflight request itself is excluded: `OPTIONS` is answered 200.)
pub proof fn lemma_missing_authorization_forbidden(req: RequestData, reply: auth::ProviderReply)
    requires
        req@.method != "OPTIONS"@,
        req@.authorization is Absent || req@.authorization is Undecodable,
    ensures
        spec_handle(req@, reply@).status == 403,
        spec_handle(req@, reply@).body == "403 Forbidden"@,
{
    reveal_strlit("<options>");
    reveal_strlit("<forbidden>");
    reveal_strlit("/");
    assert("<forbidden>"@.len() == 11);
    assert("<options>"@.len() == 9);
    assert("/"@.len() == 1);
}

/// A request whose `Origin` header is exactly `"http://localhost:3000"` is
/// answered with `Access-Control-Allow-Origin: http://localhost:3000`.
pub proof fn lemma_allowed_origin_echoed(req: RequestData, reply: auth::ProviderReply)
    requires
        req@.origin == HeaderFieldView::Present("http://localhost:3000"@),
    ensures
        spec_handle(req@, reply@).allow_origin == Some("http://localhost:3000"@),
{
    let s = "http://localhost:3000"@;
    reveal_strlit("http://localhost:3000");
    assert forall|j: int| 0 <= j < s.len() implies cors::spec_lower(s)[j] == s[j] by {
        assert(cors::spec_lower(s)[j] == cors::lower_char(s[j]));
    }
    assert(cors::spec_lower(s) =~= s);
}

/// A request whose `Origin` header is missing, undecodable, or anything
/// that does not lower-case to `"http://localhost:3000"` is answered with
/// the default `Access-Control-Allow-Origin: http://localhost:5000`.
/// (A header that lower-cases to the allowed origin, such as
/// `"HTTP://LOCALHOST:3000"`, is excluded: it is echoed as the allowed
/// origin.)
pub proof fn lemma_unknown_origin_defaulted(req: RequestData, reply: auth::ProviderReply)
    requires
        !(req@.origin matches HeaderFieldView::Present(o) && cors::spec_lower(o)
            == "http://localhost:3000"@),
    ensures
        spec_handle(req@, reply@).allow_origin == Some("http://localhost:5000"@),
{
}

/// Classification reads nothing but the request's visible data and the
/// provider's reply: two requests alike in method, path, and headers,
/// given equal replies, classify to equal contexts — the same symbolic
/// path, user id, and allowed origin.
pub proof fn lemma_classify_deterministic(
    req1: RequestData,
    req2: RequestData,
    reply1: auth::ProviderReply,
    reply2: auth::ProviderReply,
)
    requires
        req1@ == req2@,
        reply1@ == reply2@,
    ensures
        spec_classify(req1@, reply1@) == spec_classify(req2@, reply2@),
{
}

/// The finisher reaches every response: whatever the path, the method, the
/// authentication outcome, and the provider's reply, the response carries
/// the resolved allowed origin and the fixed allowed headers.
pub proof fn lemma_headers_on_every_response(req: RequestData, reply: auth::ProviderReply)
    ensures
        spec_handle(req@, reply@).allow_origin == Some(cors::spec_cors_host(req@.origin)),
        spec_handle(req@, reply@).allow_headers == Some("authorization"@),
{
}

/// Success is owed: a request to the root path that is no preflight,
/// presents a usable credential, and is resolved by the provider to a
/// non-empty subject is answered 200 with the subject as its body.
pub proof fn lemma_authenticated_root(req: RequestData, reply: auth::ProviderReply)
    requires
        req@.method != "OPTIONS"@,
        auth::spec_access_token(req@.authorization).len() > 0,
        auth::spec_subject_of(reply@).len() > 0,
        req@.path == "/"@,
    ensures
        spec_handle(req@, reply@).status == 200,
        spec_handle(req@, reply@).body == auth::spec_subject_of(reply@),
{
    reveal_strlit("<options>");
    reveal_strlit("/");
    assert("<options>"@.len() == 9);
    assert("/"@.len() == 1);
}

/// Every classified context is well formed, as long as the request's real
/// path is no sentinel (URI paths begin with `/`, so they never are): the
/// user id is non-empty exactly when the symbolic path is a real path.
pub proof fn lemma_classify_wf(req: RequestData, reply: auth::ProviderReply)
    requires
        req@.path != "<options>"@,
        req@.path != "<forbidden>"@,
    ensures
        context_wf(spec_classify(req@, reply@)),
{
    reveal_strlit("<options>");
    reveal_strlit("<forbidden>");
}

} // verus!
