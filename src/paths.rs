//! Parsing of the discovery endpoint's request paths and of the debugger
//! socket's path.
//!
//! A discovery path is the root `json`, optionally followed by `/<slug>` and
//! then by `/<rest>`; the slug names the request. The `rest` part runs to the
//! end of the path and holds no line break.

use vstd::prelude::*;
use crate::text::{find_char, owned, starts_with, str_eq};

verus! {

pub const ROOT_PATH: &'static str = "json";

pub const VERSION_INFO_SLUG: &'static str = "version";

pub const PAGE_LIST_SLUG: &'static str = "list";

pub const NEW_PAGE_SLUG: &'static str = "new";

pub const ACTIVATE_PAGE_SLUG: &'static str = "activate";

/// The debugger socket's path, before the page id.
pub const WS_PATH_PREFIX: &'static str = "devtools/page/";

/// What a discovery request asks for, as plain values.
pub enum RouteView {
    VersionInfo,
    PageList,
    NewPage(Option<Seq<char>>),
    ActivatePage(Seq<char>),
}

/// A discovery request that borrows its text from the path and query.
#[derive(Clone, Debug, PartialEq, Eq, Hash)]
pub enum GreeterRequest<'a> {
    VersionInfo,
    PageList,
    NewPage(Option<&'a str>),
    ActivatePage(&'a str),
}

/// A discovery request that owns its text.
#[derive(Clone, Debug, PartialEq, Eq, Hash)]
pub enum OwnedGreeterRequest {
    VersionInfo,
    PageList,
    NewPage(Option<String>),
    ActivatePage(String),
}

/// The same requests under the names of the plain HTTP endpoint.
pub type HttpCommand<'a> = GreeterRequest<'a>;

pub type OwnedHttpCommand = OwnedGreeterRequest;

pub open spec fn opt_str_view(q: Option<&str>) -> Option<Seq<char>> {
    match q {
        Some(s) => Some(s@),
        None => None,
    }
}

pub open spec fn opt_string_view(q: Option<String>) -> Option<Seq<char>> {
    match q {
        Some(s) => Some(s@),
        None => None,
    }
}

impl<'a> GreeterRequest<'a> {
    pub open spec fn route(self) -> RouteView {
        match self {
            GreeterRequest::VersionInfo => RouteView::VersionInfo,
            GreeterRequest::PageList => RouteView::PageList,
            GreeterRequest::NewPage(q) => RouteView::NewPage(opt_str_view(q)),
            GreeterRequest::ActivatePage(id) => RouteView::ActivatePage(id@),
        }
    }
}

impl OwnedGreeterRequest {
    pub open spec fn route(self) -> RouteView {
        match self {
            OwnedGreeterRequest::VersionInfo => RouteView::VersionInfo,
            OwnedGreeterRequest::PageList => RouteView::PageList,
            OwnedGreeterRequest::NewPage(q) => RouteView::NewPage(opt_string_view(q)),
            OwnedGreeterRequest::ActivatePage(id) => RouteView::ActivatePage(id@),
        }
    }
}

pub open spec fn borrowed_route(r: Option<GreeterRequest>) -> Option<RouteView> {
    match r {
        Some(x) => Some(x.route()),
        None => None,
    }
}

pub open spec fn owned_route(r: Option<OwnedGreeterRequest>) -> Option<RouteView> {
    match r {
        Some(x) => Some(x.route()),
        None => None,
    }
}

pub open spec fn has_prefix(s: Seq<char>, p: Seq<char>) -> bool {
    p.len() <= s.len() && s.subrange(0, p.len() as int) == p
}

pub open spec fn no_char(s: Seq<char>, c: char) -> bool {
    forall|j: int| 0 <= j < s.len() ==> s[j] != c
}

/// `p` is the position of the first `/` in `s`.
pub open spec fn is_first_slash(s: Seq<char>, p: int) -> bool {
    0 <= p < s.len() && s[p] == '/' && forall|j: int| 0 <= j < p ==> s[j] != '/'
}

/// The request that a slug names, given the text after it, if any.
pub open spec fn slug_route(slug: Seq<char>, rest: Option<Seq<char>>, query: Option<Seq<char>>) -> Option<RouteView> {
    if slug == VERSION_INFO_SLUG@ {
        Some(RouteView::VersionInfo)
    } else if slug == PAGE_LIST_SLUG@ {
        Some(RouteView::PageList)
    } else if slug == NEW_PAGE_SLUG@ {
        Some(RouteView::NewPage(query))
    } else if slug == ACTIVATE_PAGE_SLUG@ {
        Some(RouteView::ActivatePage(
            match rest {
                Some(r) => r,
                None => Seq::empty(),
            },
        ))
    } else {
        None
    }
}

/// The request that a discovery path (without its leading slash) names.
pub open spec fn greeter_route(path: Seq<char>, query: Option<Seq<char>>) -> Option<RouteView> {
    if !has_prefix(path, ROOT_PATH@) {
        None
    } else {
        let rest = path.subrange(ROOT_PATH@.len() as int, path.len() as int);
        if rest.len() == 0 {
            Some(RouteView::PageList)
        } else if rest[0] != '/' {
            None
        } else {
            let after = rest.subrange(1, rest.len() as int);
            if no_char(after, '/') {
                slug_route(after, None, query)
            } else {
                let p = choose|p: int| is_first_slash(after, p);
                let tail = after.subrange(p + 1, after.len() as int);
                if no_char(tail, '\n') {
                    slug_route(after.subrange(0, p), Some(tail), query)
                } else {
                    None
                }
            }
        }
    }
}

/// The request that a discovery path with its leading slash names.
pub open spec fn greeter_route_with_slash(path: Seq<char>, query: Option<Seq<char>>) -> Option<RouteView> {
    if path.len() > 0 && path[0] == '/' {
        greeter_route(path.subrange(1, path.len() as int), query)
    } else {
        None
    }
}

/// The page id in a debugger socket path (without its leading slash).
pub open spec fn ws_page_id(path: Seq<char>) -> Option<Seq<char>> {
    if has_prefix(path, WS_PATH_PREFIX@) && no_char(
        path.subrange(WS_PATH_PREFIX@.len() as int, path.len() as int),
        '\n',
    ) {
        Some(path.subrange(WS_PATH_PREFIX@.len() as int, path.len() as int))
    } else {
        None
    }
}

pub open spec fn ws_page_id_with_slash(path: Seq<char>) -> Option<Seq<char>> {
    if path.len() > 0 && path[0] == '/' {
        ws_page_id(path.subrange(1, path.len() as int))
    } else {
        None
    }
}

pub open spec fn opt_page_id(r: Option<&str>) -> Option<Seq<char>> {
    opt_str_view(r)
}

proof fn lemma_first_slash_unique(s: Seq<char>, p: int, q: int)
    requires
        is_first_slash(s, p),
        is_first_slash(s, q),
    ensures
        p == q,
{
    if p < q {
        assert(s[p] != '/');
    } else if q < p {
        assert(s[q] != '/');
    }
}

/// Whether `s` holds no line break from position `from` on.
fn no_line_break_from(s: &str, from: usize) -> (r: bool)
    requires
        from <= s@.len(),
    ensures
        r == no_char(s@.subrange(from as int, s@.len() as int), '\n'),
{
    let found = find_char(s, '\n', from);
    match found {
        Some(i) => {
            assert(s@.subrange(from as int, s@.len() as int)[i - from] == '\n');
            false
        },
        None => true,
    }
}

/// The request that a slug names, given the text after it.
fn slug_request<'a>(slug: &str, rest: Option<&'a str>, query: Option<&'a str>) -> (r: Option<GreeterRequest<'a>>)
    ensures
        borrowed_route(r) == slug_route(slug@, opt_str_view(rest), opt_str_view(query)),
{
    if str_eq(slug, VERSION_INFO_SLUG) {
        Some(GreeterRequest::VersionInfo)
    } else if str_eq(slug, PAGE_LIST_SLUG) {
        Some(GreeterRequest::PageList)
    } else if str_eq(slug, NEW_PAGE_SLUG) {
        Some(GreeterRequest::NewPage(query))
    } else if str_eq(slug, ACTIVATE_PAGE_SLUG) {
        match rest {
            Some(r) => Some(GreeterRequest::ActivatePage(r)),
            None => {
                proof {
                    reveal_strlit("");
                }
                assert(""@ =~= Seq::<char>::empty());
                Some(GreeterRequest::ActivatePage(""))
            },
        }
    } else {
        None
    }
}

impl<'a> GreeterRequest<'a> {
    /// Parses a discovery path given without its leading slash.
    pub fn parse(path: &'a str, query: Option<&'a str>) -> (r: Option<GreeterRequest<'a>>)
        ensures
            borrowed_route(r) == greeter_route(path@, opt_str_view(query)),
    {
        if !starts_with(path, ROOT_PATH) {
            return None;
        }
        let n = path.unicode_len();
        let root_len = ROOT_PATH.unicode_len();
        let rest = path.substring_char(root_len, n);
        if root_len == n {
            return Some(GreeterRequest::PageList);
        }
        if path.get_char(root_len) != '/' {
            assert(rest@[0] == path@[root_len as int]);
            return None;
        }
        let start = root_len + 1;
        let ghost after = rest@.subrange(1, rest@.len() as int);
        assert(after =~= path@.subrange(start as int, n as int));
        match find_char(path, '/', start) {
            None => {
                let slug = path.substring_char(start, n);
                assert(no_char(after, '/')) by {
                    assert forall|j: int| 0 <= j < after.len() implies after[j] != '/' by {
                        assert(after[j] == path@[start + j]);
                    }
                }
                slug_request(slug, None, query)
            },
            Some(p) => {
                let ghost q = p - start;
                assert(is_first_slash(after, q)) by {
                    assert(after[q] == path@[p as int]);
                    assert forall|j: int| 0 <= j < q implies after[j] != '/' by {
                        assert(after[j] == path@[start + j]);
                    }
                }
                assert(!no_char(after, '/'));
                proof {
                    let c = choose|c: int| is_first_slash(after, c);
                    lemma_first_slash_unique(after, c, q);
                }
                let slug = path.substring_char(start, p);
                let tail = path.substring_char(p + 1, n);
                assert(slug@ =~= after.subrange(0, q));
                assert(tail@ =~= after.subrange(q + 1, after.len() as int));
                assert(tail@ =~= path@.subrange(p + 1, n as int));
                if no_line_break_from(path, p + 1) {
                    slug_request(slug, Some(tail), query)
                } else {
                    None
                }
            },
        }
    }

    /// Parses a discovery path that must begin with a slash.
    pub fn parse_with_slash(path: &'a str, query: Option<&'a str>) -> (r: Option<GreeterRequest<'a>>)
        ensures
            borrowed_route(r) == greeter_route_with_slash(path@, opt_str_view(query)),
    {
        let n = path.unicode_len();
        if n > 0 && path.get_char(0) == '/' {
            GreeterRequest::parse(path.substring_char(1, n), query)
        } else {
            None
        }
    }

    /// Borrows the text of an owned request.
    pub fn from_owned(src: &'a OwnedGreeterRequest) -> (r: GreeterRequest<'a>)
        ensures
            r.route() == src.route(),
    {
        match src {
            OwnedGreeterRequest::VersionInfo => GreeterRequest::VersionInfo,
            OwnedGreeterRequest::PageList => GreeterRequest::PageList,
            OwnedGreeterRequest::NewPage(q) => match q {
                Some(url) => GreeterRequest::NewPage(Some(url.as_str())),
                None => GreeterRequest::NewPage(None),
            },
            OwnedGreeterRequest::ActivatePage(id) => GreeterRequest::ActivatePage(id.as_str()),
        }
    }
}

impl OwnedGreeterRequest {
    /// Copies the text of a borrowed request.
    pub fn from_borrowed(src: &GreeterRequest) -> (r: OwnedGreeterRequest)
        ensures
            r.route() == src.route(),
    {
        match src {
            GreeterRequest::VersionInfo => OwnedGreeterRequest::VersionInfo,
            GreeterRequest::PageList => OwnedGreeterRequest::PageList,
            GreeterRequest::NewPage(q) => match q {
                Some(url) => OwnedGreeterRequest::NewPage(Some(owned(url))),
                None => OwnedGreeterRequest::NewPage(None),
            },
            GreeterRequest::ActivatePage(id) => OwnedGreeterRequest::ActivatePage(owned(id)),
        }
    }

    /// Parses a discovery path given without its leading slash.
    pub fn parse(path: &str, query: Option<&str>) -> (r: Option<OwnedGreeterRequest>)
        ensures
            owned_route(r) == greeter_route(path@, opt_str_view(query)),
    {
        match GreeterRequest::parse(path, query) {
            Some(x) => Some(OwnedGreeterRequest::from_borrowed(&x)),
            None => None,
        }
    }

    /// Parses a discovery path that must begin with a slash.
    pub fn parse_with_slash(path: &str, query: Option<&str>) -> (r: Option<OwnedGreeterRequest>)
        ensures
            owned_route(r) == greeter_route_with_slash(path@, opt_str_view(query)),
    {
        match GreeterRequest::parse_with_slash(path, query) {
            Some(x) => Some(OwnedGreeterRequest::from_borrowed(&x)),
            None => None,
        }
    }
}

/// The page id in a debugger socket path given without its leading slash.
pub fn parse_path(path: &str) -> (r: Option<&str>)
    ensures
        opt_page_id(r) == ws_page_id(path@),
{
    if !starts_with(path, WS_PATH_PREFIX) {
        return None;
    }
    let n = path.unicode_len();
    let k = WS_PATH_PREFIX.unicode_len();
    if no_line_break_from(path, k) {
        Some(path.substring_char(k, n))
    } else {
        None
    }
}

/// The page id in a debugger socket path that must begin with a slash.
pub fn parse_path_with_slash(path: &str) -> (r: Option<&str>)
    ensures
        opt_page_id(r) == ws_page_id_with_slash(path@),
{
    let n = path.unicode_len();
    if n > 0 && path.get_char(0) == '/' {
        parse_path(path.substring_char(1, n))
    } else {
        None
    }
}

/// The page id in a debugger socket path; an alias of `parse_path`.
pub fn parse_websocket_path(path: &str) -> (r: Option<&str>)
    ensures
        opt_page_id(r) == ws_page_id(path@),
{
    parse_path(path)
}

/// The page id in a debugger socket path that must begin with a slash; an
/// alias of `parse_path_with_slash`.
pub fn parse_websocket_path_with_slash(path: &str) -> (r: Option<&str>)
    ensures
        opt_page_id(r) == ws_page_id_with_slash(path@),
{
    parse_path_with_slash(path)
}

} // verus!
