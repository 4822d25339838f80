use front_door::auth::{plan_verification, subject_from_reply, userinfo_url, AuthDecision, ProviderReply};
use front_door::cors::{cors_host, inject_headers, ok};
use front_door::http::{dispatch, forbidden, internal_server_error, not_found, HttpResponse};
use front_door::{classify, configured_port, handle, HeaderField, RequestContext, RequestData};

fn request(
    method: &str,
    path: &str,
    authorization: HeaderField,
    origin: HeaderField,
) -> RequestData {
    RequestData {
        method: method.to_string(),
        path: path.to_string(),
        authorization,
        origin,
    }
}

fn bearer(token: &str) -> HeaderField {
    HeaderField::Present(format!("Bearer {}", token))
}

fn good_reply(subject: &str) -> ProviderReply {
    ProviderReply::Answered {
        status: 200,
        body: format!("{{\"sub\":\"{}\"}}", subject),
    }
}

#[test]
fn authenticated_root_echoes_subject() {
    let req = request("GET", "/", bearer("tok"), HeaderField::Absent);
    let res = handle(&req, &good_reply("user-42"));
    assert_eq!(res.status, 200);
    assert_eq!(res.body, "user-42");
    assert_eq!(res.allow_origin.as_deref(), Some("http://localhost:5000"));
    assert_eq!(res.allow_headers.as_deref(), Some("authorization"));
}

#[test]
fn missing_authorization_is_forbidden() {
    let req = request("GET", "/", HeaderField::Absent, HeaderField::Absent);
    let res = handle(&req, &ProviderReply::Unreachable);
    assert_eq!(res.status, 403);
    assert_eq!(res.body, "403 Forbidden");
}

#[test]
fn undecodable_authorization_is_forbidden() {
    let req = request("GET", "/whatever", HeaderField::Undecodable, HeaderField::Absent);
    let res = handle(&req, &ProviderReply::Unreachable);
    assert_eq!(res.status, 403);
    assert_eq!(res.body, "403 Forbidden");
}

#[test]
fn preflight_is_ok_with_allowed_origin_echoed() {
    let req = request(
        "OPTIONS",
        "/anything",
        HeaderField::Absent,
        HeaderField::Present("http://localhost:3000".to_string()),
    );
    let res = handle(&req, &ProviderReply::Unreachable);
    assert_eq!(res.status, 200);
    assert_eq!(res.body, "OK");
    assert_eq!(res.allow_origin.as_deref(), Some("http://localhost:3000"));
}

#[test]
fn preflight_never_asks_for_verification() {
    let req = request(
        "OPTIONS",
        "/",
        bearer("perfectly-valid-token"),
        HeaderField::Absent,
    );
    assert!(matches!(plan_verification(&req), AuthDecision::Skip));
}

#[test]
fn unknown_path_is_not_found() {
    let req = request("GET", "/unknown-path", bearer("tok"), HeaderField::Absent);
    let res = handle(&req, &good_reply("user-42"));
    assert_eq!(res.status, 404);
    assert_eq!(res.body, "404 Not found");
}

#[test]
fn provider_error_is_forbidden() {
    let req = request("GET", "/", bearer("tok"), HeaderField::Absent);
    let reply = ProviderReply::Answered {
        status: 500,
        body: "{\"sub\":\"user-42\"}".to_string(),
    };
    let res = handle(&req, &reply);
    assert_eq!(res.status, 403);
    assert_eq!(res.body, "403 Forbidden");
}

#[test]
fn provider_unreachable_is_forbidden() {
    let req = request("GET", "/", bearer("tok"), HeaderField::Absent);
    let res = handle(&req, &ProviderReply::Unreachable);
    assert_eq!(res.status, 403);
    assert_eq!(res.body, "403 Forbidden");
}

#[test]
fn classification_is_repeatable() {
    let req = request("GET", "/", bearer("tok"), HeaderField::Absent);
    let reply = good_reply("user-42");
    let first = classify(&req, &reply);
    let second = classify(&req, &reply);
    assert_eq!(first.path, second.path);
    assert_eq!(first.user_id, second.user_id);
    assert_eq!(first.cors_allowed_origin, second.cors_allowed_origin);
    assert_eq!(first.path, "/");
    assert_eq!(first.user_id, "user-42");
}

#[test]
fn uppercase_origin_is_folded_and_echoed() {
    let origin = HeaderField::Present("HTTP://LOCALHOST:3000".to_string());
    assert_eq!(cors_host(&origin), "http://localhost:3000");
}

#[test]
fn unknown_origin_gets_the_default() {
    let origin = HeaderField::Present("http://evil.example".to_string());
    assert_eq!(cors_host(&origin), "http://localhost:5000");
}

#[test]
fn missing_origin_gets_the_default() {
    assert_eq!(cors_host(&HeaderField::Absent), "http://localhost:5000");
    assert_eq!(cors_host(&HeaderField::Undecodable), "http://localhost:5000");
}

#[test]
fn second_allowed_origin_maps_to_itself() {
    let origin = HeaderField::Present("http://localhost:5000".to_string());
    assert_eq!(cors_host(&origin), "http://localhost:5000");
}

#[test]
fn bearer_prefix_is_stripped() {
    let req = request("GET", "/", bearer("abc"), HeaderField::Absent);
    match plan_verification(&req) {
        AuthDecision::Query(token) => assert_eq!(token, "abc"),
        AuthDecision::Skip => panic!("expected a provider query"),
    }
}

#[test]
fn header_without_bearer_prefix_is_the_token() {
    let req = request(
        "GET",
        "/",
        HeaderField::Present("sometoken".to_string()),
        HeaderField::Absent,
    );
    match plan_verification(&req) {
        AuthDecision::Query(token) => assert_eq!(token, "sometoken"),
        AuthDecision::Skip => panic!("expected a provider query"),
    }
}

#[test]
fn empty_credential_skips_verification() {
    let empty = request("GET", "/", HeaderField::Present("Bearer ".to_string()), HeaderField::Absent);
    assert!(matches!(plan_verification(&empty), AuthDecision::Skip));
    let res = handle(&empty, &ProviderReply::Unreachable);
    assert_eq!(res.status, 403);
}

#[test]
fn subject_is_read_from_the_reply_body() {
    let reply = ProviderReply::Answered {
        status: 200,
        body: "{\"sub\":\"abc\",\"name\":\"Ada\"}".to_string(),
    };
    assert_eq!(subject_from_reply(&reply), "abc");
}

#[test]
fn unusable_reply_bodies_resolve_to_nobody() {
    let cases = vec![
        "not json at all",
        "42",
        "[\"sub\"]",
        "{\"sub\":42}",
        "{\"nosub\":\"x\"}",
        "{}",
        "",
    ];
    for body in cases {
        let reply = ProviderReply::Answered { status: 200, body: body.to_string() };
        assert_eq!(subject_from_reply(&reply), "", "body: {}", body);
    }
}

#[test]
fn non_2xx_replies_resolve_to_nobody() {
    for status in [199u16, 300, 301, 403, 500] {
        let reply = ProviderReply::Answered {
            status,
            body: "{\"sub\":\"user-42\"}".to_string(),
        };
        assert_eq!(subject_from_reply(&reply), "");
    }
    let reply = ProviderReply::Answered {
        status: 299,
        body: "{\"sub\":\"user-42\"}".to_string(),
    };
    assert_eq!(subject_from_reply(&reply), "user-42");
}

#[test]
fn dispatch_covers_every_route() {
    let preflight = RequestContext {
        cors_allowed_origin: "http://localhost:5000".to_string(),
        path: "<options>".to_string(),
        user_id: String::new(),
    };
    let res = dispatch(&preflight);
    assert_eq!((res.status, res.body.as_str()), (200, "OK"));

    let root = RequestContext {
        cors_allowed_origin: "http://localhost:5000".to_string(),
        path: "/".to_string(),
        user_id: "user-42".to_string(),
    };
    let res = dispatch(&root);
    assert_eq!((res.status, res.body.as_str()), (200, "user-42"));

    let blocked = RequestContext {
        cors_allowed_origin: "http://localhost:5000".to_string(),
        path: "<forbidden>".to_string(),
        user_id: String::new(),
    };
    let res = dispatch(&blocked);
    assert_eq!((res.status, res.body.as_str()), (403, "403 Forbidden"));

    let missing = RequestContext {
        cors_allowed_origin: "http://localhost:5000".to_string(),
        path: "/nope".to_string(),
        user_id: "user-42".to_string(),
    };
    let res = dispatch(&missing);
    assert_eq!((res.status, res.body.as_str()), (404, "404 Not found"));
}

#[test]
fn response_constructors_have_the_documented_shape() {
    let f = forbidden();
    assert_eq!((f.status, f.body.as_str()), (403, "403 Forbidden"));
    let n = not_found();
    assert_eq!((n.status, n.body.as_str()), (404, "404 Not found"));
    let i = internal_server_error();
    assert_eq!((i.status, i.body.as_str()), (500, "500 Internal Server Error"));
    let o = ok();
    assert_eq!((o.status, o.body.as_str()), (200, "OK"));
    assert!(f.allow_origin.is_none() && f.allow_headers.is_none());
}

#[test]
fn finisher_sets_headers_and_keeps_the_rest() {
    let ctx = RequestContext {
        cors_allowed_origin: "http://localhost:3000".to_string(),
        path: "/".to_string(),
        user_id: "user-42".to_string(),
    };
    let mut res = HttpResponse {
        status: 418,
        body: "teapot".to_string(),
        allow_origin: None,
        allow_headers: None,
    };
    inject_headers(&ctx, &mut res);
    assert_eq!(res.status, 418);
    assert_eq!(res.body, "teapot");
    assert_eq!(res.allow_origin.as_deref(), Some("http://localhost:3000"));
    assert_eq!(res.allow_headers.as_deref(), Some("authorization"));
}

#[test]
fn port_falls_back_to_80() {
    assert_eq!(configured_port(&None), 80);
    assert_eq!(configured_port(&Some(String::new())), 80);
    assert_eq!(configured_port(&Some("eighty".to_string())), 80);
    assert_eq!(configured_port(&Some("80x".to_string())), 80);
    assert_eq!(configured_port(&Some("65536".to_string())), 80);
    assert_eq!(configured_port(&Some("184467440737095516150".to_string())), 80);
    assert_eq!(configured_port(&Some("+".to_string())), 80);
    assert_eq!(configured_port(&Some("++8080".to_string())), 80);
    assert_eq!(configured_port(&Some("-1".to_string())), 80);
    assert_eq!(configured_port(&Some("+65536".to_string())), 80);
}

#[test]
fn port_reads_decimal_values() {
    assert_eq!(configured_port(&Some("8080".to_string())), 8080);
    assert_eq!(configured_port(&Some("65535".to_string())), 65535);
    assert_eq!(configured_port(&Some("0".to_string())), 0);
    assert_eq!(configured_port(&Some("007".to_string())), 7);
    assert_eq!(configured_port(&Some("+8080".to_string())), 8080);
    assert_eq!(configured_port(&Some("+65535".to_string())), 65535);
}

#[test]
fn userinfo_url_is_built_from_the_domain() {
    assert_eq!(
        userinfo_url("tenant.example.auth0.com"),
        "https://tenant.example.auth0.com/userinfo"
    );
}
