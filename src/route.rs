//! Route definitions and the fetch-and-patch decisions made for each request.

use crate::error::RelayError;
use crate::headers::{
    filter_headers, find_header, forwarded, headers_view, lookup, names_view, Header,
};
use crate::pattern::{patched, Patch};
use vstd::prelude::*;
use vstd::string::StringSliceAdditionalSpecFns;

verus! {

/// The name of the header that tells what kind of content a body holds.
pub const CONTENT_TYPE: &'static str = "content-type";

/// The one content type whose bodies are patched, compared as an exact string.
pub const JAVASCRIPT_MIME: &'static str = "text/javascript";

/// Where a route fetches from.
pub enum Upstream {
    /// One fixed URL; the route takes no path parameter.
    Fixed(String),
    /// A base URL that the route's path parameter is appended to.
    Under(String),
}

impl Upstream {
    /// The URL fetched for a request with the given path parameter, or
    /// `None` where the parameter does not fit the route's shape.
    pub open spec fn url_spec(&self, param: Option<Seq<char>>) -> Option<Seq<char>> {
        match (self, param) {
            (Upstream::Fixed(u), None) => Some(u@),
            (Upstream::Under(base), Some(p)) => Some(base@ + p),
            _ => None,
        }
    }
}

/// The view of an optional path parameter.
pub open spec fn param_view(param: Option<&str>) -> Option<Seq<char>> {
    match param {
        Some(p) => Some(p@),
        None => None,
    }
}

/// A request to be sent upstream: a GET of `url`, with `user_agent` as its
/// user-agent header when present and no such header otherwise.
pub struct UpstreamRequest {
    pub url: String,
    pub user_agent: Option<String>,
}

/// What came back from upstream: status, headers in the order received, and
/// the body.
pub struct UpstreamResponse {
    pub status: u16,
    pub headers: Vec<Header>,
    pub body: Vec<u8>,
}

/// What the relay answers with.
pub struct Outbound {
    pub status: u16,
    pub headers: Vec<Header>,
    pub body: Vec<u8>,
}

/// One route: where it fetches from, which upstream headers it passes on, and
/// the patch applied to its scripts.
pub struct Route {
    pub upstream: Upstream,
    pub forwarded: Vec<String>,
    pub patch: Patch,
}

/// A status in the 2xx range.
pub open spec fn is_success_spec(status: u16) -> bool {
    200 <= status <= 299
}

/// The first content-type header upstream is exactly the JavaScript type.
pub open spec fn is_javascript_spec(h: Seq<(Seq<char>, Seq<u8>)>) -> bool {
    lookup(h, CONTENT_TYPE@) == Some(JAVASCRIPT_MIME.spec_bytes())
}

/// A body is patched only when upstream succeeded and sent JavaScript.
pub open spec fn should_patch_spec(status: u16, h: Seq<(Seq<char>, Seq<u8>)>) -> bool {
    is_success_spec(status) && is_javascript_spec(h)
}

/// The body handed back for an upstream body: patched when the response
/// qualifies, passed through as it is otherwise.
pub open spec fn outbound_body(
    pattern: Seq<char>,
    replacement: Seq<char>,
    status: u16,
    h: Seq<(Seq<char>, Seq<u8>)>,
    body: Seq<u8>,
) -> Seq<u8> {
    if should_patch_spec(status, h) {
        patched(pattern, replacement, body)
    } else {
        body
    }
}

/// Whether `status` is a success (2xx).
pub fn is_success(status: u16) -> (r: bool)
    ensures
        r == is_success_spec(status),
{
    200 <= status && status <= 299
}

fn bytes_equal(a: &Vec<u8>, b: &[u8]) -> (r: bool)
    ensures
        r == (a@ == b@),
{
    if a.len() != b.len() {
        return false;
    }
    let mut i: usize = 0;
    while i < a.len()
        invariant
            i <= a.len(),
            a.len() == b.len(),
            a@.subrange(0, i as int) == b@.subrange(0, i as int),
        decreases a.len() - i,
    {
        if a[i] != b[i] {
            assert(a@[i as int] != b@[i as int]);
            return false;
        }
        assert(a@.subrange(0, i + 1) =~= a@.subrange(0, i as int).push(a@[i as int]));
        assert(b@.subrange(0, i + 1) =~= b@.subrange(0, i as int).push(b@[i as int]));
        i = i + 1;
    }
    assert(a@ =~= a@.subrange(0, a.len() as int));
    assert(b@ =~= b@.subrange(0, b.len() as int));
    true
}

/// Whether the first content-type header in `headers` is exactly
/// `text/javascript`; a type with parameters does not count.
pub fn is_javascript(headers: &Vec<Header>) -> (r: bool)
    ensures
        r == is_javascript_spec(headers_view(headers@)),
{
    let name = CONTENT_TYPE.to_owned();
    match find_header(headers, &name) {
        Some(v) => bytes_equal(v, JAVASCRIPT_MIME.as_bytes()),
        None => false,
    }
}

/// Whether a response with this status and these headers gets patched.
pub fn should_patch(status: u16, headers: &Vec<Header>) -> (r: bool)
    ensures
        r == should_patch_spec(status, headers_view(headers@)),
{
    is_success(status) && is_javascript(headers)
}

/// Upstream base of the player-bundle route: a CDN directory that the
/// requested file name is appended to.
pub const CHZZK_BASE: &'static str = "https://ssl.pstatic.net/static/nng/glive/resource/p/static/js/";

/// Finds the step of the player's state machine that probes network quality.
pub const CHZZK_PATTERN: &'static str = r"(.\(!0\),.\(null\)),.\(.\),.*?case 6";

/// Keeps the first two calls and jumps straight to the state after the probe.
pub const CHZZK_REPLACEMENT: &'static str = "$1,e.next=6;case 6";

/// Upstream of the live-player route: one fixed script.
pub const AFREECATV_URL: &'static str = "https://static.afreecatv.com/asset/app/liveplayer/player/dist/LivePlayer.js";

/// Finds the body of the player's high-quality agent test.
pub const AFREECATV_PATTERN: &'static str = r"shouldConnectToAgentForHighQuality:function\(\)\{.*?\},";

/// Makes that test always answer "no".
pub const AFREECATV_REPLACEMENT: &'static str = "shouldConnectToAgentForHighQuality:function(){return!1},";

impl Upstream {
    /// The URL to fetch for a request with path parameter `param`.
    pub fn url(&self, param: Option<&str>) -> (r: Option<String>)
        ensures
            match r {
                Some(u) => self.url_spec(param_view(param)) == Some(u@),
                None => self.url_spec(param_view(param)) is None,
            },
    {
        match (self, param) {
            (Upstream::Fixed(u), None) => Some(u.clone()),
            (Upstream::Under(base), Some(p)) => {
                let mut u = base.clone();
                u.append(p);
                Some(u)
            },
            _ => None,
        }
    }
}

impl Route {
    /// The player-bundle route: files under `CHZZK_BASE`, with content type,
    /// cache control and expiry passed on.
    pub open spec fn is_chzzk(&self) -> bool {
        &&& self.upstream matches Upstream::Under(b) && b@ == CHZZK_BASE@
        &&& names_view(self.forwarded@) == seq![CONTENT_TYPE@, "cache-control"@, "expires"@]
        &&& self.patch.pattern_spec() == CHZZK_PATTERN@
        &&& self.patch.replacement_spec() == CHZZK_REPLACEMENT@
    }

    /// The live-player route: the script at `AFREECATV_URL`, with content
    /// type and cache control passed on.
    pub open spec fn is_afreecatv(&self) -> bool {
        &&& self.upstream matches Upstream::Fixed(u) && u@ == AFREECATV_URL@
        &&& names_view(self.forwarded@) == seq![CONTENT_TYPE@, "cache-control"@]
        &&& self.patch.pattern_spec() == AFREECATV_PATTERN@
        &&& self.patch.replacement_spec() == AFREECATV_REPLACEMENT@
    }

    /// A route from its parts.
    pub fn new(upstream: Upstream, forwarded: Vec<String>, patch: Patch) -> (r: Route)
        ensures
            r.upstream == upstream,
            r.forwarded == forwarded,
            r.patch == patch,
    {
        Route { upstream, forwarded, patch }
    }

    /// Builds the player-bundle route; fails only if its pattern does not
    /// compile.
    pub fn chzzk() -> (r: Result<Route, RelayError>)
        ensures
            r is Ok <==> crate::pattern::regex_compiles(CHZZK_PATTERN@),
            r matches Err(e) ==> e == RelayError::PatchPattern,
            r matches Ok(route) ==> route.is_chzzk(),
    {
        let patch = Patch::new(CHZZK_PATTERN, CHZZK_REPLACEMENT)?;
        let mut forwarded: Vec<String> = Vec::new();
        forwarded.push(CONTENT_TYPE.to_owned());
        forwarded.push("cache-control".to_owned());
        forwarded.push("expires".to_owned());
        assert(names_view(forwarded@) =~= seq![CONTENT_TYPE@, "cache-control"@, "expires"@]);
        Ok(Route { upstream: Upstream::Under(CHZZK_BASE.to_owned()), forwarded, patch })
    }

    /// Builds the live-player route; fails only if its pattern does not
    /// compile.
    pub fn afreecatv() -> (r: Result<Route, RelayError>)
        ensures
            r is Ok <==> crate::pattern::regex_compiles(AFREECATV_PATTERN@),
            r matches Err(e) ==> e == RelayError::PatchPattern,
            r matches Ok(route) ==> route.is_afreecatv(),
    {
        let patch = Patch::new(AFREECATV_PATTERN, AFREECATV_REPLACEMENT)?;
        let mut forwarded: Vec<String> = Vec::new();
        forwarded.push(CONTENT_TYPE.to_owned());
        forwarded.push("cache-control".to_owned());
        assert(names_view(forwarded@) =~= seq![CONTENT_TYPE@, "cache-control"@]);
        Ok(Route { upstream: Upstream::Fixed(AFREECATV_URL.to_owned()), forwarded, patch })
    }

    /// The upstream request for an inbound request with path parameter
    /// `param` and optional user agent; `None` where the parameter does not
    /// fit the route. The user agent is carried over as it is, never made up.
    pub fn request(&self, param: Option<&str>, user_agent: Option<String>) -> (r: Option<
        UpstreamRequest,
    >)
        ensures
            match r {
                Some(req) => {
                    &&& self.upstream.url_spec(param_view(param)) == Some(req.url@)
                    &&& req.user_agent == user_agent
                },
                None => self.upstream.url_spec(param_view(param)) is None,
            },
    {
        match self.upstream.url(param) {
            Some(url) => Some(UpstreamRequest { url, user_agent }),
            None => None,
        }
    }

    /// The response for what came back from upstream: its status unchanged,
    /// the forwarded headers that upstream sent, and the body, patched when
    /// upstream succeeded with exactly `text/javascript`.
    pub fn respond(&self, upstream: UpstreamResponse) -> (r: Outbound)
        ensures
            r.status == upstream.status,
            headers_view(r.headers@) == forwarded(
                names_view(self.forwarded@),
                headers_view(upstream.headers@),
            ),
            r.body@ == outbound_body(
                self.patch.pattern_spec(),
                self.patch.replacement_spec(),
                upstream.status,
                headers_view(upstream.headers@),
                upstream.body@,
            ),
    {
        let UpstreamResponse { status, headers, body } = upstream;
        let out_headers = filter_headers(&self.forwarded, &headers);
        let body = if should_patch(status, &headers) {
            self.patch.apply(body)
        } else {
            body
        };
        Outbound { status, headers: out_headers, body }
    }
}

/// Every route the relay serves, with patterns compiled once before any
/// request is handled.
pub struct Routes {
    pub chzzk: Route,
    pub afreecatv: Route,
}

impl Routes {
    /// Builds every route; fails, before serving anything, if a pattern does
    /// not compile.
    pub fn load() -> (r: Result<Routes, RelayError>)
        ensures
            r is Ok <==> crate::pattern::regex_compiles(CHZZK_PATTERN@)
                && crate::pattern::regex_compiles(AFREECATV_PATTERN@),
            r matches Err(e) ==> e == RelayError::PatchPattern,
            r matches Ok(t) ==> t.chzzk.is_chzzk() && t.afreecatv.is_afreecatv(),
    {
        let chzzk = Route::chzzk()?;
        let afreecatv = Route::afreecatv()?;
        Ok(Routes { chzzk, afreecatv })
    }
}

} // verus!
