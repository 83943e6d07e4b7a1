//! The discovery service's own vocabulary: the kinds of targets, what a
//! target and a browser report, and the requests the service answers.

use vstd::prelude::*;
use crate::paths::{has_prefix, is_first_slash, no_char, opt_str_view};
use crate::text::{find_char, owned, starts_with, str_eq};
use crate::urls::WsEndpoint;

verus! {

/// The kind of a debugging target.
#[derive(Clone, Copy, Debug, PartialEq, Eq, PartialOrd, Ord, Hash)]
pub enum TargetKind {
    Page,
    BackgroundPage,
    ServiceWorker,
    App,
    IFrame,
    WebView,
    Worker,
    Other,
}

pub open spec fn target_kind_wire(k: TargetKind) -> Seq<char> {
    match k {
        TargetKind::Page => "page"@,
        TargetKind::BackgroundPage => "background_page"@,
        TargetKind::ServiceWorker => "service_worker"@,
        TargetKind::App => "app"@,
        TargetKind::IFrame => "iframe"@,
        TargetKind::WebView => "webview"@,
        TargetKind::Worker => "worker"@,
        TargetKind::Other => "other"@,
    }
}

pub open spec fn target_kind_display(k: TargetKind) -> Seq<char> {
    match k {
        TargetKind::Page => "page"@,
        TargetKind::BackgroundPage => "background page"@,
        TargetKind::ServiceWorker => "service worker"@,
        TargetKind::App => "app"@,
        TargetKind::IFrame => "iframe"@,
        TargetKind::WebView => "webview"@,
        TargetKind::Worker => "worker"@,
        TargetKind::Other => "other"@,
    }
}

impl TargetKind {
    /// The name of this kind on the wire.
    pub fn wire_name(self) -> (r: &'static str)
        ensures
            r@ == target_kind_wire(self),
    {
        match self {
            TargetKind::Page => "page",
            TargetKind::BackgroundPage => "background_page",
            TargetKind::ServiceWorker => "service_worker",
            TargetKind::App => "app",
            TargetKind::IFrame => "iframe",
            TargetKind::WebView => "webview",
            TargetKind::Worker => "worker",
            TargetKind::Other => "other",
        }
    }

    /// The name of this kind for people.
    pub fn to_string(self) -> (r: String)
        ensures
            r@ == target_kind_display(self),
    {
        crate::text::owned(
            match self {
                TargetKind::Page => "page",
                TargetKind::BackgroundPage => "background page",
                TargetKind::ServiceWorker => "service worker",
                TargetKind::App => "app",
                TargetKind::IFrame => "iframe",
                TargetKind::WebView => "webview",
                TargetKind::Worker => "worker",
                TargetKind::Other => "other",
            },
        )
    }
}

/// A debugging target as the discovery service lists it.
#[derive(Clone, Debug, PartialEq, Eq)]
pub struct Target {
    pub id: String,
    pub kind: TargetKind,
    pub url: String,
    pub title: String,
    pub description: Option<String>,
    pub favicon_url: Option<String>,
    pub ws_url: String,
    pub frontend_url: Option<String>,
}

/// What a browser reports about itself.
#[derive(Clone, Debug, PartialEq, Eq)]
pub struct BrowserInfo {
    pub id: String,
    pub user_agent: String,
    pub ws_url: Option<String>,
    pub protocol_version: String,
    pub webkit_version: Option<String>,
    pub v8_version: Option<String>,
    pub android_package: Option<String>,
}

/// The outcome of a request to activate a target.
#[derive(Clone, Copy, Debug, PartialEq, Eq, PartialOrd, Ord, Hash)]
pub enum ActivateResponse {
    Activated,
    NotFound,
}

/// The outcome of a request to close a target.
#[derive(Clone, Copy, Debug, PartialEq, Eq, PartialOrd, Ord, Hash)]
pub enum CloseResponse {
    Closed,
    NotFound,
}

pub const STATUS_OK: u16 = 200;

pub const STATUS_NOT_FOUND: u16 = 404;

impl ActivateResponse {
    /// The HTTP status of this outcome.
    pub fn status(self) -> (r: u16)
        ensures
            r == (if self is Activated {
                STATUS_OK
            } else {
                STATUS_NOT_FOUND
            }),
    {
        match self {
            ActivateResponse::Activated => STATUS_OK,
            ActivateResponse::NotFound => STATUS_NOT_FOUND,
        }
    }
}

impl CloseResponse {
    /// The HTTP status of this outcome.
    pub fn status(self) -> (r: u16)
        ensures
            r == (if self is Closed {
                STATUS_OK
            } else {
                STATUS_NOT_FOUND
            }),
    {
        match self {
            CloseResponse::Closed => STATUS_OK,
            CloseResponse::NotFound => STATUS_NOT_FOUND,
        }
    }
}

/// A failure of the discovery service, with an optional message.
#[derive(Clone, Debug, PartialEq, Eq)]
pub struct GreeterError {
    pub message: Option<String>,
}

impl GreeterError {
    /// A failure with no message.
    pub fn new() -> (r: GreeterError)
        ensures
            r.message is None,
    {
        GreeterError { message: None }
    }

    /// A failure with a message.
    pub fn with_message(message: String) -> (r: GreeterError)
        ensures
            r.message == Some(message),
    {
        GreeterError { message: Some(message) }
    }
}

/// A request that the discovery service answers.
#[derive(Clone, Debug, PartialEq, Eq)]
pub enum GreeterRequest {
    Browser,
    Protocol,
    List,
    Open { maybe_url: Option<String> },
    Activate { id: String },
    Close { id: String },
}

pub open spec fn command_name_spec(r: GreeterRequest) -> Seq<char> {
    match r {
        GreeterRequest::Browser => "version"@,
        GreeterRequest::Protocol => "protocol"@,
        GreeterRequest::List => "list"@,
        GreeterRequest::Open { .. } => "new"@,
        GreeterRequest::Activate { .. } => "activate"@,
        GreeterRequest::Close { .. } => "close"@,
    }
}

impl GreeterRequest {
    /// The path segment that names this request.
    pub fn command_name(&self) -> (r: &'static str)
        ensures
            r@ == command_name_spec(*self),
    {
        match self {
            GreeterRequest::Browser => "version",
            GreeterRequest::Protocol => "protocol",
            GreeterRequest::List => "list",
            GreeterRequest::Open { .. } => "new",
            GreeterRequest::Activate { .. } => "activate",
            GreeterRequest::Close { .. } => "close",
        }
    }
}

/// A value left out of debug output.
#[derive(Clone, Copy, PartialEq, Eq)]
pub struct Omitted;

impl Omitted {
    /// What stands for the value.
    pub fn debug_text(&self) -> (r: &'static str)
        ensures
            r@ == "..."@,
    {
        "..."
    }
}

/// The discovery service's root path, with its leading slash.
pub const SERVICE_ROOT: &'static str = "/json";

/// The socket paths' root, with its leading slash.
pub const SOCKET_ROOT: &'static str = "/devtools/";

/// A request path split into its command and the text after it: the root
/// alone gives neither; `/json/<command>` gives the command; and
/// `/json/<command>/<rest>` gives both, where `rest` holds no line break.
pub open spec fn split_service_path(path: Seq<char>) -> Option<(Option<Seq<char>>, Option<Seq<char>>)> {
    if !has_prefix(path, SERVICE_ROOT@) {
        None
    } else {
        let rest = path.subrange(SERVICE_ROOT@.len() as int, path.len() as int);
        if rest.len() == 0 {
            Some((None, None))
        } else if rest[0] != '/' {
            None
        } else {
            let after = rest.subrange(1, rest.len() as int);
            if no_char(after, '/') {
                Some((Some(after), None))
            } else {
                let p = choose|p: int| is_first_slash(after, p);
                let tail = after.subrange(p + 1, after.len() as int);
                if no_char(tail, '\n') {
                    Some((Some(after.subrange(0, p)), Some(tail)))
                } else {
                    None
                }
            }
        }
    }
}

/// What the service does with a request path.
pub enum ServiceRoute {
    /// The path is not the service's.
    NotFound,
    /// The path names a command the service does not know.
    UnknownCommand(Seq<char>),
    Browser,
    Protocol,
    List,
    Open(Option<Seq<char>>),
    Activate(Seq<char>),
    Close(Seq<char>),
}

pub open spec fn or_empty(s: Option<Seq<char>>) -> Seq<char> {
    match s {
        Some(t) => t,
        None => Seq::empty(),
    }
}

pub open spec fn service_route(path: Seq<char>, query: Option<Seq<char>>) -> ServiceRoute {
    match split_service_path(path) {
        None => ServiceRoute::NotFound,
        Some((None, _)) => ServiceRoute::List,
        Some((Some(c), rest)) => if c == "version"@ {
            ServiceRoute::Browser
        } else if c == "protocol"@ {
            ServiceRoute::Protocol
        } else if c == "list"@ {
            ServiceRoute::List
        } else if c == "new"@ {
            ServiceRoute::Open(query)
        } else if c == "activate"@ {
            ServiceRoute::Activate(or_empty(rest))
        } else if c == "close"@ {
            ServiceRoute::Close(or_empty(rest))
        } else {
            ServiceRoute::UnknownCommand(c)
        },
    }
}

/// A decided request, or why there is none: `Err(None)` for a path that is
/// not the service's, `Err(Some(command))` for an unknown command.
pub open spec fn route_agrees(r: Result<GreeterRequest, Option<String>>, s: ServiceRoute) -> bool {
    match s {
        ServiceRoute::NotFound => r == Err::<GreeterRequest, Option<String>>(None),
        ServiceRoute::UnknownCommand(c) => r matches Err(Some(x)) && x@ == c,
        ServiceRoute::Browser => r == Ok::<GreeterRequest, Option<String>>(GreeterRequest::Browser),
        ServiceRoute::Protocol => r == Ok::<GreeterRequest, Option<String>>(GreeterRequest::Protocol),
        ServiceRoute::List => r == Ok::<GreeterRequest, Option<String>>(GreeterRequest::List),
        ServiceRoute::Open(q) => r matches Ok(GreeterRequest::Open { maybe_url }) && crate::paths::opt_string_view(maybe_url) == q,
        ServiceRoute::Activate(id) => r matches Ok(GreeterRequest::Activate { id: x }) && x@ == id,
        ServiceRoute::Close(id) => r matches Ok(GreeterRequest::Close { id: x }) && x@ == id,
    }
}

proof fn lemma_first_slash_unique(s: Seq<char>, p: int, q: int)
    requires
        is_first_slash(s, p),
        is_first_slash(s, q),
    ensures
        p == q,
{
    if p < q {
        assert(s[p] != '/');
    } else if q < p {
        assert(s[q] != '/');
    }
}

/// Splits a request path into its command and the text after it.
pub fn split_path(path: &str) -> (r: Option<(Option<&str>, Option<&str>)>)
    ensures
        match r {
            None => split_service_path(path@) is None,
            Some((c, rest)) => split_service_path(path@) == Some((opt_str_view(c), opt_str_view(rest))),
        },
{
    if !starts_with(path, SERVICE_ROOT) {
        return None;
    }
    let n = path.unicode_len();
    let root_len = SERVICE_ROOT.unicode_len();
    let rest = path.substring_char(root_len, n);
    if root_len == n {
        return Some((None, None));
    }
    if path.get_char(root_len) != '/' {
        assert(rest@[0] == path@[root_len as int]);
        return None;
    }
    let start = root_len + 1;
    let ghost after = rest@.subrange(1, rest@.len() as int);
    assert(after =~= path@.subrange(start as int, n as int));
    match find_char(path, '/', start) {
        None => {
            let command = path.substring_char(start, n);
            assert(no_char(after, '/')) by {
                assert forall|j: int| 0 <= j < after.len() implies after[j] != '/' by {
                    assert(after[j] == path@[start + j]);
                }
            }
            Some((Some(command), None))
        },
        Some(p) => {
            let ghost q = p - start;
            assert(is_first_slash(after, q)) by {
                assert(after[q] == path@[p as int]);
                assert forall|j: int| 0 <= j < q implies after[j] != '/' by {
                    assert(after[j] == path@[start + j]);
                }
            }
            assert(!no_char(after, '/'));
            proof {
                let c = choose|c: int| is_first_slash(after, c);
                lemma_first_slash_unique(after, c, q);
            }
            let command = path.substring_char(start, p);
            let tail = path.substring_char(p + 1, n);
            assert(command@ =~= after.subrange(0, q));
            assert(tail@ =~= after.subrange(q + 1, after.len() as int));
            match find_char(path, '\n', p + 1) {
                Some(b) => {
                    assert(tail@[b - (p + 1)] == '\n');
                    None
                },
                None => Some((Some(command), Some(tail))),
            }
        },
    }
}

fn owned_or_empty(s: Option<&str>) -> (r: String)
    ensures
        r@ == or_empty(opt_str_view(s)),
{
    match s {
        Some(t) => owned(t),
        None => {
            proof {
                reveal_strlit("");
            }
            assert(""@ =~= Seq::<char>::empty());
            owned("")
        },
    }
}

/// Decides what the service does with a request path and its query.
pub fn route_request(path: &str, query: Option<&str>) -> (r: Result<GreeterRequest, Option<String>>)
    ensures
        route_agrees(r, service_route(path@, opt_str_view(query))),
{
    match split_path(path) {
        None => Err(None),
        Some((None, _)) => Ok(GreeterRequest::List),
        Some((Some(c), rest)) => {
            if str_eq(c, "version") {
                Ok(GreeterRequest::Browser)
            } else if str_eq(c, "protocol") {
                Ok(GreeterRequest::Protocol)
            } else if str_eq(c, "list") {
                Ok(GreeterRequest::List)
            } else if str_eq(c, "new") {
                let maybe_url = match query {
                    Some(q) => Some(owned(q)),
                    None => None,
                };
                Ok(GreeterRequest::Open { maybe_url })
            } else if str_eq(c, "activate") {
                Ok(GreeterRequest::Activate { id: owned_or_empty(rest) })
            } else if str_eq(c, "close") {
                Ok(GreeterRequest::Close { id: owned_or_empty(rest) })
            } else {
                Err(Some(owned(c)))
            }
        },
    }
}

/// The socket endpoint that a path names: `/devtools/browser`, optionally
/// followed by `/<id>`, or `/devtools/page/<id>`; the id holds no line
/// break.
pub open spec fn socket_endpoint(path: Seq<char>) -> Option<(bool, Option<Seq<char>>)> {
    if !has_prefix(path, SOCKET_ROOT@) {
        None
    } else {
        let rest = path.subrange(SOCKET_ROOT@.len() as int, path.len() as int);
        let kind = if has_prefix(rest, "browser"@) {
            Some((true, "browser"@.len()))
        } else if has_prefix(rest, "page"@) {
            Some((false, "page"@.len()))
        } else {
            None
        };
        match kind {
            None => None,
            Some((browser, k)) => {
                let tail = rest.subrange(k as int, rest.len() as int);
                if tail.len() == 0 {
                    if browser {
                        Some((true, None))
                    } else {
                        None
                    }
                } else if tail[0] == '/' && no_char(tail.subrange(1, tail.len() as int), '\n') {
                    Some((browser, Some(tail.subrange(1, tail.len() as int))))
                } else {
                    None
                }
            },
        }
    }
}

pub open spec fn endpoint_agrees(r: Option<WsEndpoint>, s: Option<(bool, Option<Seq<char>>)>) -> bool {
    match s {
        None => r is None,
        Some((true, id)) => r matches Some(WsEndpoint::Browser(x)) && crate::paths::opt_string_view(x) == id,
        Some((false, id)) => r matches Some(WsEndpoint::Page(x)) && id == Some(x@),
    }
}

/// The socket endpoint that a request path names, if any.
pub fn ws_endpoint(path: &str) -> (r: Option<WsEndpoint>)
    ensures
        endpoint_agrees(r, socket_endpoint(path@)),
{
    if !starts_with(path, SOCKET_ROOT) {
        return None;
    }
    let n = path.unicode_len();
    let k0 = SOCKET_ROOT.unicode_len();
    let rest = path.substring_char(k0, n);
    let (browser, k) = if starts_with(rest, "browser") {
        (true, "browser".unicode_len())
    } else if starts_with(rest, "page") {
        (false, "page".unicode_len())
    } else {
        return None;
    };
    let m = rest.unicode_len();
    let tail = rest.substring_char(k, m);
    if k == m {
        if browser {
            return Some(WsEndpoint::Browser(None));
        }
        return None;
    }
    if tail.get_char(0) != '/' {
        return None;
    }
    let t = tail.unicode_len();
    let id = tail.substring_char(1, t);
    match find_char(tail, '\n', 1) {
        Some(b) => {
            assert(id@[b - 1] == '\n');
            None
        },
        None => {
            assert(id@ =~= tail@.subrange(1, tail@.len() as int));
            if browser {
                Some(WsEndpoint::Browser(Some(owned(id))))
            } else {
                Some(WsEndpoint::Page(owned(id)))
            }
        },
    }
}

} // verus!
