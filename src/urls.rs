//! The URLs under which a debugging server offers its endpoints.

use vstd::prelude::*;
use crate::text::owned;

verus! {

pub const WS_SCHEME: &'static str = "ws://";

pub const HTTP_SCHEME: &'static str = "http://";

pub const FRONTEND_PREFIX: &'static str = "chrome-devtools://devtools/bundled/inspector.html?ws=";

pub const PAGE_SOCKET_PATH: &'static str = "/devtools/page/";

pub const BROWSER_SOCKET_PATH: &'static str = "/devtools/browser";

pub const VERSION_INFO_PATH: &'static str = "/json/version";

pub const PAGE_LIST_PATH: &'static str = "/json/list";

pub const NEW_PAGE_PATH: &'static str = "/json/new";

pub const ACTIVATE_PAGE_PATH: &'static str = "/json/activate/";

/// The default port of a debugging server.
pub const DEFAULT_PORT: u16 = 9222;

/// The concatenation of three strings.
fn concat3(a: &str, b: &str, c: &str) -> (r: String)
    ensures
        r@ == a@ + b@ + c@,
{
    let mut s = owned(a);
    s.append(b);
    s.append(c);
    s
}

/// The concatenation of four strings.
fn concat4(a: &str, b: &str, c: &str, d: &str) -> (r: String)
    ensures
        r@ == a@ + b@ + c@ + d@,
{
    let mut s = concat3(a, b, c);
    s.append(d);
    s
}

/// The socket URL of a page: `ws://{server_addr}/devtools/page/{page_id}`.
pub fn ws_url(server_addr: &str, page_id: &str) -> (r: String)
    ensures
        r@ == WS_SCHEME@ + server_addr@ + PAGE_SOCKET_PATH@ + page_id@,
{
    concat4(WS_SCHEME, server_addr, PAGE_SOCKET_PATH, page_id)
}

/// The socket URL of a page; an alias of `ws_url`.
pub fn websocket_url(server_addr: &str, page_id: &str) -> (r: String)
    ensures
        r@ == WS_SCHEME@ + server_addr@ + PAGE_SOCKET_PATH@ + page_id@,
{
    ws_url(server_addr, page_id)
}

/// The front-end URL of a page, which opens the inspector on its socket.
pub fn frontend_url(server_addr: &str, page_id: &str) -> (r: String)
    ensures
        r@ == FRONTEND_PREFIX@ + server_addr@ + PAGE_SOCKET_PATH@ + page_id@,
{
    concat4(FRONTEND_PREFIX, server_addr, PAGE_SOCKET_PATH, page_id)
}

/// `http://{server_addr}/json/version`
pub fn version_info_url(server_addr: &str) -> (r: String)
    ensures
        r@ == HTTP_SCHEME@ + server_addr@ + VERSION_INFO_PATH@,
{
    concat3(HTTP_SCHEME, server_addr, VERSION_INFO_PATH)
}

/// `http://{server_addr}/json/list`
pub fn page_list_url(server_addr: &str) -> (r: String)
    ensures
        r@ == HTTP_SCHEME@ + server_addr@ + PAGE_LIST_PATH@,
{
    concat3(HTTP_SCHEME, server_addr, PAGE_LIST_PATH)
}

/// `http://{server_addr}/json/new`
pub fn new_page_url(server_addr: &str) -> (r: String)
    ensures
        r@ == HTTP_SCHEME@ + server_addr@ + NEW_PAGE_PATH@,
{
    concat3(HTTP_SCHEME, server_addr, NEW_PAGE_PATH)
}

/// `http://{server_addr}/json/new?{url}`
pub fn new_page_and_navigate_url(server_addr: &str, url: &str) -> (r: String)
    ensures
        r@ == HTTP_SCHEME@ + server_addr@ + NEW_PAGE_PATH@ + "?"@ + url@,
{
    let mut s = concat4(HTTP_SCHEME, server_addr, NEW_PAGE_PATH, "?");
    s.append(url);
    s
}

/// `http://{server_addr}/json/activate/{page_id}`
pub fn activate_page_url(server_addr: &str, page_id: &str) -> (r: String)
    ensures
        r@ == HTTP_SCHEME@ + server_addr@ + ACTIVATE_PAGE_PATH@ + page_id@,
{
    concat4(HTTP_SCHEME, server_addr, ACTIVATE_PAGE_PATH, page_id)
}

/// The two URLs under which a page can be debugged.
#[derive(Clone, Debug, PartialEq, Eq)]
pub struct DevToolsUrls {
    pub ws_url: String,
    pub frontend_url: String,
}

impl DevToolsUrls {
    /// The URLs of page `page_id` on the server at `server_addr` (written as
    /// `host:port`).
    pub fn new(server_addr: &str, page_id: &str) -> (r: DevToolsUrls)
        ensures
            r.ws_url@ == WS_SCHEME@ + server_addr@ + PAGE_SOCKET_PATH@ + page_id@,
            r.frontend_url@ == FRONTEND_PREFIX@ + server_addr@ + PAGE_SOCKET_PATH@ + page_id@,
    {
        DevToolsUrls { ws_url: ws_url(server_addr, page_id), frontend_url: frontend_url(server_addr, page_id) }
    }
}

/// A debugger socket endpoint: the browser's own, or a page's.
#[derive(Clone, Debug, PartialEq, Eq)]
pub enum WsEndpoint {
    Browser(Option<String>),
    Page(String),
}

pub open spec fn browser_endpoint_spec(server_addr: Seq<char>, id: Option<Seq<char>>) -> Seq<char> {
    match id {
        Some(id) => WS_SCHEME@ + server_addr + BROWSER_SOCKET_PATH@ + "/"@ + id,
        None => WS_SCHEME@ + server_addr + BROWSER_SOCKET_PATH@,
    }
}

pub open spec fn page_endpoint_spec(server_addr: Seq<char>, id: Seq<char>) -> Seq<char> {
    WS_SCHEME@ + server_addr + PAGE_SOCKET_PATH@ + id
}

impl WsEndpoint {
    /// `ws://{server_addr}/devtools/browser`, followed by `/{id}` when an id
    /// is given.
    pub fn browser_endpoint_url(server_addr: &str, maybe_id: Option<&str>) -> (r: String)
        ensures
            r@ == browser_endpoint_spec(server_addr@, crate::paths::opt_str_view(maybe_id)),
    {
        match maybe_id {
            Some(id) => {
                let mut s = concat4(WS_SCHEME, server_addr, BROWSER_SOCKET_PATH, "/");
                s.append(id);
                s
            },
            None => concat3(WS_SCHEME, server_addr, BROWSER_SOCKET_PATH),
        }
    }

    /// `ws://{server_addr}/devtools/page/{id}`
    pub fn page_endpoint_url(server_addr: &str, id: &str) -> (r: String)
        ensures
            r@ == page_endpoint_spec(server_addr@, id@),
    {
        ws_url(server_addr, id)
    }

    /// The URL of this endpoint on the server at `server_addr`.
    pub fn url(&self, server_addr: &str) -> (r: String)
        ensures
            r@ == match self {
                WsEndpoint::Browser(id) => browser_endpoint_spec(server_addr@, crate::paths::opt_string_view(*id)),
                WsEndpoint::Page(id) => page_endpoint_spec(server_addr@, id@),
            },
    {
        match self {
            WsEndpoint::Browser(maybe_id) => match maybe_id {
                Some(id) => WsEndpoint::browser_endpoint_url(server_addr, Some(id.as_str())),
                None => WsEndpoint::browser_endpoint_url(server_addr, None),
            },
            WsEndpoint::Page(id) => WsEndpoint::page_endpoint_url(server_addr, id.as_str()),
        }
    }
}

} // verus!
