use script_relay::error::RelayError;
use script_relay::headers::{filter_headers, find_header, Header};
use script_relay::pattern::Patch;
use script_relay::route::{
    is_javascript, is_success, should_patch, Outbound, Route, Routes, Upstream, UpstreamResponse,
    AFREECATV_URL, CHZZK_BASE,
};

const CHZZK_BODY: &str = "a(!0),y(null),l(t),x(9),case 6:";
const CHZZK_PATCHED: &str = "a(!0),y(null),e.next=6;case 6:";

fn header(name: &str, value: &str) -> Header {
    Header::new(name.to_string(), value.as_bytes().to_vec())
}

fn upstream(status: u16, content_type: &str, body: &str) -> UpstreamResponse {
    UpstreamResponse {
        status,
        headers: vec![header("content-type", content_type)],
        body: body.as_bytes().to_vec(),
    }
}

fn pairs(out: &[Header]) -> Vec<(String, String)> {
    out.iter()
        .map(|h| (h.name.clone(), String::from_utf8(h.value.clone()).unwrap()))
        .collect()
}

fn body_text(out: &Outbound) -> String {
    String::from_utf8(out.body.clone()).unwrap()
}

#[test]
fn scenario_patches_exact_javascript() {
    let route = Route::chzzk().unwrap();
    let out = route.respond(upstream(200, "text/javascript", CHZZK_BODY));
    assert_eq!(out.status, 200);
    assert_eq!(body_text(&out), CHZZK_PATCHED);
    assert_eq!(
        pairs(&out.headers),
        vec![("content-type".to_string(), "text/javascript".to_string())]
    );
}

#[test]
fn scenario_other_javascript_type_unchanged() {
    let route = Route::chzzk().unwrap();
    let out = route.respond(upstream(200, "application/javascript", CHZZK_BODY));
    assert_eq!(out.status, 200);
    assert_eq!(body_text(&out), CHZZK_BODY);
}

#[test]
fn content_type_with_parameters_unchanged() {
    let route = Route::chzzk().unwrap();
    let out = route.respond(upstream(200, "text/javascript; charset=utf-8", CHZZK_BODY));
    assert_eq!(body_text(&out), CHZZK_BODY);
}

#[test]
fn missing_content_type_unchanged() {
    let route = Route::chzzk().unwrap();
    let up = UpstreamResponse {
        status: 200,
        headers: vec![header("expires", "0")],
        body: CHZZK_BODY.as_bytes().to_vec(),
    };
    let out = route.respond(up);
    assert_eq!(body_text(&out), CHZZK_BODY);
    assert_eq!(pairs(&out.headers), vec![("expires".to_string(), "0".to_string())]);
}

#[test]
fn failure_status_unchanged() {
    let route = Route::chzzk().unwrap();
    for status in [199u16, 300, 304, 404, 500, 503] {
        let out = route.respond(upstream(status, "text/javascript", CHZZK_BODY));
        assert_eq!(out.status, status);
        assert_eq!(body_text(&out), CHZZK_BODY);
    }
}

#[test]
fn success_range_patched() {
    let route = Route::chzzk().unwrap();
    for status in [200u16, 204, 299] {
        let out = route.respond(upstream(status, "text/javascript", CHZZK_BODY));
        assert_eq!(out.status, status);
        assert_eq!(body_text(&out), CHZZK_PATCHED);
    }
}

#[test]
fn no_match_unchanged_and_successful() {
    let route = Route::chzzk().unwrap();
    let body = "function f(){return 1}";
    let out = route.respond(upstream(200, "text/javascript", body));
    assert_eq!(out.status, 200);
    assert_eq!(body_text(&out), body);
}

#[test]
fn empty_body_unchanged() {
    let route = Route::afreecatv().unwrap();
    let out = route.respond(upstream(200, "text/javascript", ""));
    assert_eq!(out.status, 200);
    assert!(out.body.is_empty());
}

#[test]
fn only_first_match_replaced() {
    let route = Route::chzzk().unwrap();
    let body = format!("head;{CHZZK_BODY}mid;{CHZZK_BODY}tail");
    let out = route.respond(upstream(200, "text/javascript", &body));
    assert_eq!(body_text(&out), format!("head;{CHZZK_PATCHED}mid;{CHZZK_BODY}tail"));
}

#[test]
fn live_player_patch() {
    let route = Route::afreecatv().unwrap();
    let body = "x={shouldConnectToAgentForHighQuality:function(){return this.a&&b},y:1}";
    let out = route.respond(upstream(200, "text/javascript", body));
    assert_eq!(
        body_text(&out),
        "x={shouldConnectToAgentForHighQuality:function(){return!1},y:1}"
    );
}

#[test]
fn headers_filtered_in_route_order() {
    let route = Route::chzzk().unwrap();
    let up = UpstreamResponse {
        status: 200,
        headers: vec![
            header("expires", "Thu, 01 Jan 2026 00:00:00 GMT"),
            header("x-served-by", "cache-1"),
            header("content-type", "text/javascript"),
            header("expires", "later"),
            header("etag", "\"abc\""),
        ],
        body: Vec::new(),
    };
    let out = route.respond(up);
    assert_eq!(
        pairs(&out.headers),
        vec![
            ("content-type".to_string(), "text/javascript".to_string()),
            ("expires".to_string(), "Thu, 01 Jan 2026 00:00:00 GMT".to_string()),
        ]
    );
}

#[test]
fn header_filter_idempotent() {
    let names = vec![
        "content-type".to_string(),
        "cache-control".to_string(),
        "expires".to_string(),
    ];
    let up = vec![
        header("cache-control", "max-age=60"),
        header("content-type", "text/javascript"),
        header("vary", "accept-encoding"),
    ];
    let once = filter_headers(&names, &up);
    let again = filter_headers(&names, &up);
    let twice = filter_headers(&names, &once);
    assert_eq!(pairs(&once), pairs(&again));
    assert_eq!(pairs(&twice), pairs(&once));
    assert_eq!(
        pairs(&once),
        vec![
            ("content-type".to_string(), "text/javascript".to_string()),
            ("cache-control".to_string(), "max-age=60".to_string()),
        ]
    );
}

#[test]
fn header_filter_empty_upstream() {
    let names = vec!["content-type".to_string()];
    assert!(filter_headers(&names, &Vec::new()).is_empty());
}

#[test]
fn find_header_takes_first() {
    let h = vec![header("a", "1"), header("b", "2"), header("a", "3")];
    assert_eq!(find_header(&h, &"a".to_string()), Some(&b"1".to_vec()));
    assert_eq!(find_header(&h, &"c".to_string()), None);
}

#[test]
fn classification() {
    assert!(is_success(200));
    assert!(is_success(299));
    assert!(!is_success(199));
    assert!(!is_success(300));
    assert!(is_javascript(&vec![header("content-type", "text/javascript")]));
    assert!(!is_javascript(&vec![header("content-type", "text/javascriptx")]));
    assert!(!is_javascript(&vec![header("content-type", "text/javascrip")]));
    assert!(!is_javascript(&vec![
        header("content-type", "text/html"),
        header("content-type", "text/javascript"),
    ]));
    assert!(should_patch(200, &vec![header("content-type", "text/javascript")]));
    assert!(!should_patch(404, &vec![header("content-type", "text/javascript")]));
}

#[test]
fn scenario_user_agent_forwarded() {
    let route = Route::chzzk().unwrap();
    let req = route
        .request(Some("player.js"), Some("TestAgent/1.0".to_string()))
        .unwrap();
    assert_eq!(req.user_agent.as_deref(), Some("TestAgent/1.0"));
    let req = route.request(Some("player.js"), None).unwrap();
    assert_eq!(req.user_agent, None);
}

#[test]
fn upstream_urls() {
    let chzzk = Route::chzzk().unwrap();
    let req = chzzk.request(Some("main.1a2b.js"), None).unwrap();
    assert_eq!(
        req.url,
        "https://ssl.pstatic.net/static/nng/glive/resource/p/static/js/main.1a2b.js"
    );
    assert!(req.url.starts_with(CHZZK_BASE));
    assert!(chzzk.request(None, None).is_none());
    let live = Route::afreecatv().unwrap();
    assert_eq!(live.request(None, None).unwrap().url, AFREECATV_URL);
    assert!(live.request(Some("x.js"), None).is_none());
}

#[test]
fn upstream_url_shapes() {
    let fixed = Upstream::Fixed("https://h/x.js".to_string());
    assert_eq!(fixed.url(None), Some("https://h/x.js".to_string()));
    assert_eq!(fixed.url(Some("y")), None);
    let under = Upstream::Under("https://h/d/".to_string());
    assert_eq!(under.url(Some("y.js")), Some("https://h/d/y.js".to_string()));
    assert_eq!(under.url(None), None);
}

#[test]
fn scenario_unreachable_is_server_error() {
    assert_eq!(RelayError::UpstreamUnreachable.status(), 500);
    assert_eq!(RelayError::BodyDecode.status(), 500);
    assert_eq!(RelayError::PatchPattern.status(), 500);
}

#[test]
fn invalid_pattern_rejected() {
    assert_eq!(Patch::new("(unclosed", "x").err(), Some(RelayError::PatchPattern));
}

#[test]
fn patch_parts_and_matching() {
    let p = Patch::new(r"b(\d)", "[$1]").unwrap();
    assert_eq!(p.pattern(), r"b(\d)");
    assert_eq!(p.replacement(), "[$1]");
    assert!(p.matches(b"ab1c"));
    assert!(!p.matches(b"abc"));
    assert_eq!(p.apply(b"ab1cb2".to_vec()), b"a[1]cb2".to_vec());
    assert_eq!(p.apply(b"abc".to_vec()), b"abc".to_vec());
}

#[test]
fn route_new_respond() {
    let route = Route::new(
        Upstream::Fixed("https://h/x.js".to_string()),
        vec!["cache-control".to_string()],
        Patch::new("foo", "bar").unwrap(),
    );
    let up = UpstreamResponse {
        status: 200,
        headers: vec![header("content-type", "text/javascript"), header("cache-control", "no-cache")],
        body: b"foo foo".to_vec(),
    };
    let out = route.respond(up);
    assert_eq!(out.body, b"bar foo".to_vec());
    assert_eq!(pairs(&out.headers), vec![("cache-control".to_string(), "no-cache".to_string())]);
}

#[test]
fn routes_load_both() {
    let routes = Routes::load().unwrap();
    assert_eq!(routes.chzzk.patch.pattern(), r"(.\(!0\),.\(null\)),.\(.\),.*?case 6");
    assert_eq!(
        routes.afreecatv.patch.replacement(),
        "shouldConnectToAgentForHighQuality:function(){return!1},"
    );
    assert_eq!(routes.chzzk.forwarded, vec!["content-type", "cache-control", "expires"]);
    assert_eq!(routes.afreecatv.forwarded, vec!["content-type", "cache-control"]);
}
