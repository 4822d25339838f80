//! Identity verification against the remote identity provider.
//!
//! The bearer credential is read from the `Authorization` header; the
//! surrounding server performs the one outbound call to the provider's
//! `userinfo` endpoint and hands its reply back as plain values.  Every
//! failure — no reply, a non-2xx status, a body that does not parse to an
//! object with a string `sub` field — collapses to an empty user id, so no
//! failure cause ever reaches the client.

use vstd::prelude::*;

use crate::HeaderField;
use crate::HeaderFieldView;
use crate::RequestData;
use crate::RequestDataView;

verus! {

/// The bearer credential carried by an `Authorization` header: a missing or
/// undecodable header yields the empty credential, and a leading
/// `"Bearer "` is stripped from a present one.
pub open spec fn spec_access_token(h: HeaderFieldView) -> Seq<char> {
    match h {
        HeaderFieldView::Absent => Seq::<char>::empty(),
        HeaderFieldView::Undecodable => Seq::<char>::empty(),
        HeaderFieldView::Present(s) => if s.len() >= 7 && s.subrange(0, 7) == "Bearer "@ {
            s.subrange(7, s.len() as int)
        } else {
            s
        },
    }
}

/// Extracts the bearer credential from the `Authorization` header.
pub fn access_token(authorization: &HeaderField) -> (t: String)
    ensures
        t@ == spec_access_token(authorization@),
{
    match authorization {
        HeaderField::Absent => String::new(),
        HeaderField::Undecodable => String::new(),
        HeaderField::Present(s) => {
            let n = s.as_str().unicode_len();
            if n >= 7 {
                let prefix = s.as_str().substring_char(0, 7);
                if String::from_str(prefix) == String::from_str("Bearer ") {
                    let rest = s.as_str().substring_char(7, n);
                    return String::from_str(rest);
                }
            }
            s.clone()
        },
    }
}

/// The `sub` field of the JSON object that `body` parses to, if `body`
/// parses to an object whose `sub` field is a string; what that is on given
/// characters is known only to the JSON parser.
pub uninterp spec fn json_subject_of(body: Seq<char>) -> Option<Seq<char>>;

/// Relies on `serde_json::from_str` and `serde_json::Value`: the parse of
/// `body`, and the `sub` field of the parsed object, depend on the
/// characters of `body` alone.
#[verifier::external_body]
fn extract_subject(body: &str) -> (r: Option<String>)
    ensures
        (r matches Some(s) ==> json_subject_of(body@) == Some(s@)),
        (r is None ==> json_subject_of(body@) is None),
{
    match serde_json::from_str::<serde_json::Value>(body) {
        Ok(serde_json::Value::Object(fields)) => match fields.get("sub") {
            Some(serde_json::Value::String(sub)) => Some(sub.clone()),
            _ => None,
        },
        _ => None,
    }
}

/// One reply of the identity provider, as the transport saw it: either no
/// usable reply at all (network failure), or a status code with a body.
pub enum ProviderReply {
    Unreachable,
    Answered { status: u16, body: String },
}

/// Ghost shape of a [`ProviderReply`].
#[verifier::ext_equal]
pub enum ProviderReplyView {
    Unreachable,
    Answered { status: u16, body: Seq<char> },
}

impl View for ProviderReply {
    type V = ProviderReplyView;

    open spec fn view(&self) -> ProviderReplyView {
        match self {
            ProviderReply::Unreachable => ProviderReplyView::Unreachable,
            ProviderReply::Answered { status, body } => ProviderReplyView::Answered {
                status: *status,
                body: body@,
            },
        }
    }
}

/// A successful provider status: any 2xx code.
pub open spec fn spec_is_success(status: u16) -> bool {
    200 <= status && status < 300
}

/// The user id a provider reply resolves to: the `sub` field of a 2xx JSON
/// body, and the empty string on every failure.
pub open spec fn spec_subject_of(reply: ProviderReplyView) -> Seq<char> {
    match reply {
        ProviderReplyView::Unreachable => Seq::<char>::empty(),
        ProviderReplyView::Answered { status, body } => if spec_is_success(status) {
            match json_subject_of(body) {
                Some(sub) => sub,
                None => Seq::<char>::empty(),
            }
        } else {
            Seq::<char>::empty()
        },
    }
}

/// Resolves a provider reply to a user id.  Network failure, a non-2xx
/// status, and an unparsable body are indistinguishable in the result: all
/// yield the empty user id.
pub fn subject_from_reply(reply: &ProviderReply) -> (s: String)
    ensures
        s@ == spec_subject_of(reply@),
{
    match reply {
        ProviderReply::Unreachable => String::new(),
        ProviderReply::Answered { status, body } => {
            if 200 <= *status && *status < 300 {
                match extract_subject(body.as_str()) {
                    Some(sub) => sub,
                    None => String::new(),
                }
            } else {
                String::new()
            }
        },
    }
}

/// Does classifying this request require a call to the identity provider?
/// Preflight requests and requests without a usable credential do not.
pub open spec fn spec_needs_verification(req: RequestDataView) -> bool {
    req.method != "OPTIONS"@ && spec_access_token(req.authorization).len() > 0
}

/// What the classifier asks of the surrounding server: either no provider
/// call at all, or one `userinfo` query presenting the given credential.
pub enum AuthDecision {
    Skip,
    Query(String),
}

/// Decides whether identity verification is needed for this request, and
/// with which credential.  `OPTIONS` requests are never verified, and an
/// absent, undecodable, or empty credential short-circuits to `Skip`
/// without any outbound call.
pub fn plan_verification(req: &RequestData) -> (d: AuthDecision)
    ensures
        (d is Query) == spec_needs_verification(req@),
        (d matches AuthDecision::Query(t) ==> t@ == spec_access_token(req@.authorization)),
{
    if req.method == String::from_str("OPTIONS") {
        AuthDecision::Skip
    } else {
        let token = access_token(&req.authorization);
        if token.as_str().is_empty() {
            AuthDecision::Skip
        } else {
            AuthDecision::Query(token)
        }
    }
}

/// The URL of the identity provider's introspection endpoint on the given
/// domain.
pub fn userinfo_url(domain: &str) -> (url: String)
    ensures
        url@ == "https://"@ + domain@ + "/userinfo"@,
{
    let mut url = String::from_str("https://");
    url.append(domain);
    url.append("/userinfo");
    url
}

} // verus!
