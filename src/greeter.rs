//! The discovery endpoint's data: browser version information, the pages
//! that can be debugged, and the responses that carry them.

use vstd::prelude::*;
use crate::json::{append_json, json_view, members_view, push_member, str_value, view_lookup, view_text, JsonValue, JsonView};
use crate::urls::DevToolsUrls;

verus! {

/// The text that stands for an unknown component version.
pub const UNKNOWN_VERSION: &'static str = "0";

/// What a browser reports about itself.
#[derive(Clone, Debug, PartialEq, Eq)]
pub struct VersionInfo {
    pub browser: String,
    pub protocol_version: String,
    pub user_agent: String,
    pub v8_version: Option<String>,
    pub webkit_version: Option<String>,
}

/// The kind of a debuggable page.
#[derive(Clone, Copy, Debug, PartialEq, Eq, PartialOrd, Ord, Hash)]
pub enum PageType {
    Tab,
    Background,
    ServiceWorker,
    App,
    Other,
}

/// A debuggable page.
#[derive(Clone, Debug, PartialEq, Eq)]
pub struct Page {
    pub id: String,
    pub ty: PageType,
    pub url: String,
    pub title: String,
    pub description: Option<String>,
    pub favicon_url: Option<String>,
    pub devtools_urls: Option<DevToolsUrls>,
}

pub open spec fn page_type_wire(t: PageType) -> Seq<char> {
    match t {
        PageType::Tab => "page"@,
        PageType::Background => "background_page"@,
        PageType::ServiceWorker => "service_worker"@,
        PageType::App => "app"@,
        PageType::Other => "other"@,
    }
}

pub open spec fn page_type_display(t: PageType) -> Seq<char> {
    match t {
        PageType::Tab => "tab"@,
        PageType::Background => "background page"@,
        PageType::ServiceWorker => "service worker"@,
        PageType::App => "app"@,
        PageType::Other => "other page"@,
    }
}

impl PageType {
    /// The name of this kind on the wire.
    pub fn wire_name(self) -> (r: &'static str)
        ensures
            r@ == page_type_wire(self),
    {
        match self {
            PageType::Tab => "page",
            PageType::Background => "background_page",
            PageType::ServiceWorker => "service_worker",
            PageType::App => "app",
            PageType::Other => "other",
        }
    }

    /// The name of this kind for people.
    pub fn to_string(self) -> (r: String)
        ensures
            r@ == page_type_display(self),
    {
        crate::text::owned(
            match self {
                PageType::Tab => "tab",
                PageType::Background => "background page",
                PageType::ServiceWorker => "service worker",
                PageType::App => "app",
                PageType::Other => "other page",
            },
        )
    }
}

pub open spec fn opt_or_unknown(v: Option<String>) -> Seq<char> {
    match v {
        Some(s) => s@,
        None => UNKNOWN_VERSION@,
    }
}

/// The JSON object of the version information; an unknown component
/// version is written as `"0"`.
pub open spec fn version_info_json(v: VersionInfo) -> JsonView {
    JsonView::Object(
        seq![
            ("Browser"@, JsonView::Str(v.browser@)),
            ("Protocol-Version"@, JsonView::Str(v.protocol_version@)),
            ("User-Agent"@, JsonView::Str(v.user_agent@)),
            ("V8-Version"@, JsonView::Str(opt_or_unknown(v.v8_version))),
            ("WebKit-Version"@, JsonView::Str(opt_or_unknown(v.webkit_version))),
        ],
    )
}

/// The JSON object of a page: its description (empty where there is
/// none), its front-end URL where it has one, its icon where it has one,
/// its id, title, kind and URL, and its socket URL where it has one.
pub open spec fn page_json(p: Page) -> JsonView {
    let m0: Seq<(Seq<char>, JsonView)> = seq![("description"@, JsonView::Str(
        match p.description {
            Some(d) => d@,
            None => Seq::empty(),
        },
    ))];
    let m1 = match p.devtools_urls {
        Some(u) => m0.push(("devtoolsFrontendUrl"@, JsonView::Str(u.frontend_url@))),
        None => m0,
    };
    let m2 = match p.favicon_url {
        Some(f) => m1.push(("faviconUrl"@, JsonView::Str(f@))),
        None => m1,
    };
    let m3 = m2.push(("id"@, JsonView::Str(p.id@))).push(("title"@, JsonView::Str(p.title@))).push(
        ("type"@, JsonView::Str(page_type_wire(p.ty))),
    ).push(("url"@, JsonView::Str(p.url@)));
    JsonView::Object(
        match p.devtools_urls {
            Some(u) => m3.push(("webSocketDebuggerUrl"@, JsonView::Str(u.ws_url@))),
            None => m3,
        },
    )
}

pub open spec fn pages_json(pages: Seq<Page>) -> JsonView {
    JsonView::Array(pages.map_values(|p: Page| page_json(p)))
}

fn opt_str_or<'a>(v: &'a Option<String>, default: &'a str) -> (r: &'a str)
    ensures
        r@ == match v {
            Some(s) => s@,
            None => default@,
        },
{
    match v {
        Some(s) => s.as_str(),
        None => default,
    }
}

impl VersionInfo {
    /// The JSON object of this information.
    pub fn to_json(&self) -> (r: JsonValue)
        ensures
            json_view(r) == version_info_json(*self),
    {
        let mut ms: Vec<(String, JsonValue)> = Vec::new();
        push_member(&mut ms, "Browser", str_value(self.browser.as_str()));
        push_member(&mut ms, "Protocol-Version", str_value(self.protocol_version.as_str()));
        push_member(&mut ms, "User-Agent", str_value(self.user_agent.as_str()));
        push_member(&mut ms, "V8-Version", str_value(opt_str_or(&self.v8_version, UNKNOWN_VERSION)));
        push_member(&mut ms, "WebKit-Version", str_value(opt_str_or(&self.webkit_version, UNKNOWN_VERSION)));
        assert(members_view(ms, ms@.len()) =~= match version_info_json(*self) {
            JsonView::Object(m) => m,
            _ => Seq::empty(),
        });
        JsonValue::Object(ms)
    }
}

impl Page {
    /// The JSON object of this page.
    pub fn to_json(&self) -> (r: JsonValue)
        ensures
            json_view(r) == page_json(*self),
    {
        proof {
            reveal_strlit("");
        }
        assert(""@ =~= Seq::<char>::empty());
        let mut ms: Vec<(String, JsonValue)> = Vec::new();
        push_member(&mut ms, "description", str_value(opt_str_or(&self.description, "")));
        match &self.devtools_urls {
            Some(u) => push_member(&mut ms, "devtoolsFrontendUrl", str_value(u.frontend_url.as_str())),
            None => {},
        }
        match &self.favicon_url {
            Some(f) => push_member(&mut ms, "faviconUrl", str_value(f.as_str())),
            None => {},
        }
        push_member(&mut ms, "id", str_value(self.id.as_str()));
        push_member(&mut ms, "title", str_value(self.title.as_str()));
        push_member(&mut ms, "type", str_value(self.ty.wire_name()));
        push_member(&mut ms, "url", str_value(self.url.as_str()));
        match &self.devtools_urls {
            Some(u) => push_member(&mut ms, "webSocketDebuggerUrl", str_value(u.ws_url.as_str())),
            None => {},
        }
        assert(members_view(ms, ms@.len()) =~= match page_json(*self) {
            JsonView::Object(m) => m,
            _ => Seq::empty(),
        });
        JsonValue::Object(ms)
    }
}

/// The JSON array of a list of pages.
pub fn pages_to_json(pages: &[Page]) -> (r: JsonValue)
    ensures
        json_view(r) == pages_json(pages@),
{
    let mut items: Vec<JsonValue> = Vec::new();
    let mut i: usize = 0;
    while i < pages.len()
        invariant
            i <= pages@.len(),
            items@.len() == i,
            forall|j: int| 0 <= j < i ==> json_view(#[trigger] items@[j]) == page_json(pages@[j]),
        decreases pages@.len() - i,
    {
        items.push(pages[i].to_json());
        i = i + 1;
    }
    proof {
        crate::json::lemma_items_view(items, items@.len());
    }
    assert(crate::json::items_view(items, items@.len()) =~= pages@.map_values(|p: Page| page_json(p)));
    JsonValue::Array(items)
}

/// The response to a request that failed: status 500, no body.
#[derive(Clone, Copy, Debug, PartialEq, Eq)]
pub struct GreeterErrorResponse;

/// The response that carries the version information.
#[derive(Clone, Debug, PartialEq, Eq)]
pub struct GreeterVersionInfoResponse<'a>(pub &'a VersionInfo);

/// The response that carries the list of pages.
#[derive(Clone, Debug, PartialEq, Eq)]
pub struct GreeterPageListResponse<'a>(pub &'a [Page]);

/// The response that carries a newly opened page.
#[derive(Clone, Debug, PartialEq, Eq)]
pub struct GreeterNewPageResponse<'a>(pub &'a Page);

/// The response to a request to activate a page: no body.
#[derive(Clone, Copy, Debug, PartialEq, Eq)]
pub enum GreeterActivatePageResponse {
    Activated,
    PageNotFound,
}

pub const STATUS_OK: u16 = 200;

pub const STATUS_NOT_FOUND: u16 = 404;

pub const STATUS_SERVER_ERROR: u16 = 500;

impl GreeterErrorResponse {
    pub fn status(&self) -> (r: u16)
        ensures
            r == STATUS_SERVER_ERROR,
    {
        STATUS_SERVER_ERROR
    }

    /// Appends the body, which is empty.
    pub fn serialize_body_to_string(&self, string: &mut String) -> (r: Result<(), ()>)
        ensures
            r is Ok,
            *final(string) == *old(string),
    {
        Ok(())
    }
}

impl<'a> GreeterVersionInfoResponse<'a> {
    pub fn status(&self) -> (r: u16)
        ensures
            r == STATUS_OK,
    {
        STATUS_OK
    }

    /// Appends the body: the JSON text of the version information.
    pub fn serialize_body_to_string(&self, string: &mut String) -> (r: Result<(), ()>)
        ensures
            r is Ok,
            final(string)@ == old(string)@ + view_text(version_info_json(*self.0)),
    {
        let v = self.0.to_json();
        append_json(&v, string);
        Ok(())
    }
}

impl<'a> GreeterPageListResponse<'a> {
    pub fn status(&self) -> (r: u16)
        ensures
            r == STATUS_OK,
    {
        STATUS_OK
    }

    /// Appends the body: the JSON text of the list of pages.
    pub fn serialize_body_to_string(&self, string: &mut String) -> (r: Result<(), ()>)
        ensures
            r is Ok,
            final(string)@ == old(string)@ + view_text(pages_json(self.0@)),
    {
        let v = pages_to_json(self.0);
        append_json(&v, string);
        Ok(())
    }
}

impl<'a> GreeterNewPageResponse<'a> {
    pub fn status(&self) -> (r: u16)
        ensures
            r == STATUS_OK,
    {
        STATUS_OK
    }

    /// Appends the body: the JSON text of the page.
    pub fn serialize_body_to_string(&self, string: &mut String) -> (r: Result<(), ()>)
        ensures
            r is Ok,
            final(string)@ == old(string)@ + view_text(page_json(*self.0)),
    {
        let v = self.0.to_json();
        append_json(&v, string);
        Ok(())
    }
}

impl GreeterActivatePageResponse {
    pub fn status(&self) -> (r: u16)
        ensures
            r == match self {
                GreeterActivatePageResponse::Activated => STATUS_OK,
                GreeterActivatePageResponse::PageNotFound => STATUS_NOT_FOUND,
            },
    {
        match self {
            GreeterActivatePageResponse::Activated => STATUS_OK,
            GreeterActivatePageResponse::PageNotFound => STATUS_NOT_FOUND,
        }
    }

    /// Appends the body, which is empty.
    pub fn serialize_body_to_string(&self, string: &mut String) -> (r: Result<(), ()>)
        ensures
            r is Ok,
            *final(string) == *old(string),
    {
        Ok(())
    }
}

/// A response of the plain HTTP endpoint.
#[derive(Clone, Debug, PartialEq, Eq)]
pub enum HttpResponse {
    VersionInfo(VersionInfo),
    PageList(Vec<Page>),
    NewPage(Page),
    ActivatePage(bool),
}

impl HttpResponse {
    /// The HTTP status: 200, but 404 for a page that could not be activated.
    pub fn status(&self) -> (r: u16)
        ensures
            r == match self {
                HttpResponse::ActivatePage(false) => STATUS_NOT_FOUND,
                _ => STATUS_OK,
            },
    {
        match self {
            HttpResponse::VersionInfo(_) => STATUS_OK,
            HttpResponse::PageList(_) => STATUS_OK,
            HttpResponse::NewPage(_) => STATUS_OK,
            HttpResponse::ActivatePage(activated) => if *activated {
                STATUS_OK
            } else {
                STATUS_NOT_FOUND
            },
        }
    }
}

/// Why a JSON value is not a page or a version report.
#[derive(Clone, Copy, Debug, PartialEq, Eq)]
pub enum DecodeError {
    NotAnObject,
    /// A member holds a value of the wrong kind.
    InvalidField(&'static str),
    /// A member that must be present is not.
    MissingField(&'static str),
}

/// An optional string member: absent or null is none.
pub open spec fn optional_string(v: Option<JsonView>) -> Result<Option<Seq<char>>, ()> {
    match v {
        None => Ok(None),
        Some(JsonView::Null) => Ok(None),
        Some(JsonView::Str(s)) => Ok(Some(s)),
        _ => Err(()),
    }
}

/// A required string member: `Ok(None)` where it is absent.
pub open spec fn required_string(v: Option<JsonView>) -> Result<Option<Seq<char>>, ()> {
    match v {
        None => Ok(None),
        Some(JsonView::Str(s)) => Ok(Some(s)),
        _ => Err(()),
    }
}

pub open spec fn page_type_of(s: Seq<char>) -> Option<PageType> {
    if s == page_type_wire(PageType::Tab) {
        Some(PageType::Tab)
    } else if s == page_type_wire(PageType::Background) {
        Some(PageType::Background)
    } else if s == page_type_wire(PageType::ServiceWorker) {
        Some(PageType::ServiceWorker)
    } else if s == page_type_wire(PageType::App) {
        Some(PageType::App)
    } else if s == page_type_wire(PageType::Other) {
        Some(PageType::Other)
    } else {
        None
    }
}

/// A page as plain values.
pub struct PageView {
    pub id: Seq<char>,
    pub ty: PageType,
    pub url: Seq<char>,
    pub title: Seq<char>,
    pub description: Option<Seq<char>>,
    pub favicon_url: Option<Seq<char>>,
    pub urls: Option<(Seq<char>, Seq<char>)>,
}

pub open spec fn page_view(p: Page) -> PageView {
    PageView {
        id: p.id@,
        ty: p.ty,
        url: p.url@,
        title: p.title@,
        description: crate::paths::opt_string_view(p.description),
        favicon_url: crate::paths::opt_string_view(p.favicon_url),
        urls: match p.devtools_urls {
            Some(u) => Some((u.ws_url@, u.frontend_url@)),
            None => None,
        },
    }
}

/// The page that a JSON value holds. Members are checked in a fixed order,
/// each for its kind; an empty description counts as none; the two
/// debugging URLs come together or not at all; then the required members
/// must be present. Other members are ignored.
pub open spec fn page_from_json(v: JsonView) -> Result<PageView, DecodeError> {
    match v {
        JsonView::Object(ms) => {
            let description = optional_string(view_lookup(ms, "description"@));
            let frontend = optional_string(view_lookup(ms, "devtoolsFrontendUrl"@));
            let favicon = optional_string(view_lookup(ms, "faviconUrl"@));
            let id = required_string(view_lookup(ms, "id"@));
            let title = required_string(view_lookup(ms, "title"@));
            let ty = required_string(view_lookup(ms, "type"@));
            let url = required_string(view_lookup(ms, "url"@));
            let ws = optional_string(view_lookup(ms, "webSocketDebuggerUrl"@));
            if description is Err {
                Err(DecodeError::InvalidField("description"))
            } else if frontend is Err {
                Err(DecodeError::InvalidField("devtoolsFrontendUrl"))
            } else if favicon is Err {
                Err(DecodeError::InvalidField("faviconUrl"))
            } else if id is Err {
                Err(DecodeError::InvalidField("id"))
            } else if title is Err {
                Err(DecodeError::InvalidField("title"))
            } else if ty is Err || (ty matches Ok(Some(t)) && page_type_of(t) is None) {
                Err(DecodeError::InvalidField("type"))
            } else if url is Err {
                Err(DecodeError::InvalidField("url"))
            } else if ws is Err {
                Err(DecodeError::InvalidField("webSocketDebuggerUrl"))
            } else if ws.unwrap() is None && frontend.unwrap() is Some {
                Err(DecodeError::MissingField("devtoolsFrontendUrl"))
            } else if ws.unwrap() is Some && frontend.unwrap() is None {
                Err(DecodeError::MissingField("webSocketDebuggerUrl"))
            } else if id.unwrap() is None {
                Err(DecodeError::MissingField("id"))
            } else if title.unwrap() is None {
                Err(DecodeError::MissingField("title"))
            } else if ty.unwrap() is None {
                Err(DecodeError::MissingField("type"))
            } else if url.unwrap() is None {
                Err(DecodeError::MissingField("url"))
            } else {
                Ok(
                    PageView {
                        id: id.unwrap().unwrap(),
                        ty: page_type_of(ty.unwrap().unwrap()).unwrap(),
                        url: url.unwrap().unwrap(),
                        title: title.unwrap().unwrap(),
                        description: match description.unwrap() {
                            Some(d) => if d.len() == 0 {
                                None
                            } else {
                                Some(d)
                            },
                            None => None,
                        },
                        favicon_url: favicon.unwrap(),
                        urls: match (ws.unwrap(), frontend.unwrap()) {
                            (Some(w), Some(f)) => Some((w, f)),
                            _ => None,
                        },
                    },
                )
            }
        },
        _ => Err(DecodeError::NotAnObject),
    }
}

pub open spec fn opt_ref_view(v: Option<&JsonValue>) -> Option<JsonView> {
    match v {
        Some(x) => Some(json_view(*x)),
        None => None,
    }
}

fn member_of<'a>(members: &'a Vec<(String, JsonValue)>, key: &str) -> (r: Option<&'a JsonValue>)
    ensures
        opt_ref_view(r) == view_lookup(members_view(*members, members@.len()), key@),
{
    proof {
        crate::json::lemma_lookup_agrees(*members, key@, 0);
    }
    match crate::json::find_member(members, key) {
        Some(i) => Some(&members[i].1),
        None => None,
    }
}

fn optional_string_of(v: Option<&JsonValue>) -> (r: Result<Option<String>, ()>)
    ensures
        match r {
            Ok(s) => optional_string(opt_ref_view(v)) == Ok::<Option<Seq<char>>, ()>(crate::paths::opt_string_view(s)),
            Err(_) => optional_string(opt_ref_view(v)) is Err,
        },
{
    match v {
        None => Ok(None),
        Some(JsonValue::Null) => Ok(None),
        Some(JsonValue::Str(s)) => Ok(Some(s.clone())),
        Some(_) => Err(()),
    }
}

fn required_string_of(v: Option<&JsonValue>) -> (r: Result<Option<String>, ()>)
    ensures
        match r {
            Ok(s) => required_string(opt_ref_view(v)) == Ok::<Option<Seq<char>>, ()>(crate::paths::opt_string_view(s)),
            Err(_) => required_string(opt_ref_view(v)) is Err,
        },
{
    match v {
        None => Ok(None),
        Some(JsonValue::Str(s)) => Ok(Some(s.clone())),
        Some(_) => Err(()),
    }
}

fn page_type_from(s: &str) -> (r: Option<PageType>)
    ensures
        r == page_type_of(s@),
{
    if crate::text::str_eq(s, "page") {
        Some(PageType::Tab)
    } else if crate::text::str_eq(s, "background_page") {
        Some(PageType::Background)
    } else if crate::text::str_eq(s, "service_worker") {
        Some(PageType::ServiceWorker)
    } else if crate::text::str_eq(s, "app") {
        Some(PageType::App)
    } else if crate::text::str_eq(s, "other") {
        Some(PageType::Other)
    } else {
        None
    }
}

impl Page {
    /// The page that a JSON value holds.
    pub fn from_json(v: &JsonValue) -> (r: Result<Page, DecodeError>)
        ensures
            match r {
                Ok(p) => page_from_json(json_view(*v)) == Ok::<PageView, DecodeError>(page_view(p)),
                Err(e) => page_from_json(json_view(*v)) == Err::<PageView, DecodeError>(e),
            },
    {
        let ms = match v {
            JsonValue::Object(ms) => ms,
            _ => {
                return Err(DecodeError::NotAnObject);
            },
        };
        let description = optional_string_of(member_of(ms, "description"));
        let frontend = optional_string_of(member_of(ms, "devtoolsFrontendUrl"));
        let favicon = optional_string_of(member_of(ms, "faviconUrl"));
        let id = required_string_of(member_of(ms, "id"));
        let title = required_string_of(member_of(ms, "title"));
        let ty = required_string_of(member_of(ms, "type"));
        let url = required_string_of(member_of(ms, "url"));
        let ws = optional_string_of(member_of(ms, "webSocketDebuggerUrl"));
        let description = match description {
            Err(_) => {
                return Err(DecodeError::InvalidField("description"));
            },
            Ok(d) => d,
        };
        let frontend = match frontend {
            Err(_) => {
                return Err(DecodeError::InvalidField("devtoolsFrontendUrl"));
            },
            Ok(f) => f,
        };
        let favicon = match favicon {
            Err(_) => {
                return Err(DecodeError::InvalidField("faviconUrl"));
            },
            Ok(f) => f,
        };
        let id = match id {
            Err(_) => {
                return Err(DecodeError::InvalidField("id"));
            },
            Ok(i) => i,
        };
        let title = match title {
            Err(_) => {
                return Err(DecodeError::InvalidField("title"));
            },
            Ok(t) => t,
        };
        let ty = match ty {
            Err(_) => {
                return Err(DecodeError::InvalidField("type"));
            },
            Ok(None) => None,
            Ok(Some(t)) => match page_type_from(t.as_str()) {
                None => {
                    return Err(DecodeError::InvalidField("type"));
                },
                Some(k) => Some(k),
            },
        };
        let url = match url {
            Err(_) => {
                return Err(DecodeError::InvalidField("url"));
            },
            Ok(u) => u,
        };
        let ws = match ws {
            Err(_) => {
                return Err(DecodeError::InvalidField("webSocketDebuggerUrl"));
            },
            Ok(w) => w,
        };
        let devtools_urls = match (ws, frontend) {
            (None, None) => None,
            (Some(w), Some(f)) => Some(DevToolsUrls { ws_url: w, frontend_url: f }),
            (None, Some(_)) => {
                return Err(DecodeError::MissingField("devtoolsFrontendUrl"));
            },
            (Some(_), None) => {
                return Err(DecodeError::MissingField("webSocketDebuggerUrl"));
            },
        };
        let id = match id {
            None => {
                return Err(DecodeError::MissingField("id"));
            },
            Some(i) => i,
        };
        let title = match title {
            None => {
                return Err(DecodeError::MissingField("title"));
            },
            Some(t) => t,
        };
        let ty = match ty {
            None => {
                return Err(DecodeError::MissingField("type"));
            },
            Some(t) => t,
        };
        let url = match url {
            None => {
                return Err(DecodeError::MissingField("url"));
            },
            Some(u) => u,
        };
        let description = match description {
            Some(d) => if d.unicode_len() == 0 {
                None
            } else {
                Some(d)
            },
            None => None,
        };
        Ok(Page { id, ty, url, title, description, favicon_url: favicon, devtools_urls })
    }
}

/// A component version member: null or `"0"` is unknown. It must be
/// present.
pub open spec fn component_version(v: Option<JsonView>) -> Result<Option<Option<Seq<char>>>, ()> {
    match v {
        None => Ok(None),
        Some(JsonView::Null) => Ok(Some(None)),
        Some(JsonView::Str(s)) => Ok(Some(
            if s == UNKNOWN_VERSION@ {
                None
            } else {
                Some(s)
            },
        )),
        _ => Err(()),
    }
}

pub struct VersionInfoView {
    pub browser: Seq<char>,
    pub protocol_version: Seq<char>,
    pub user_agent: Seq<char>,
    pub v8_version: Option<Seq<char>>,
    pub webkit_version: Option<Seq<char>>,
}

pub open spec fn version_info_view(v: VersionInfo) -> VersionInfoView {
    VersionInfoView {
        browser: v.browser@,
        protocol_version: v.protocol_version@,
        user_agent: v.user_agent@,
        v8_version: crate::paths::opt_string_view(v.v8_version),
        webkit_version: crate::paths::opt_string_view(v.webkit_version),
    }
}

/// The version report that a JSON value holds: members are checked for
/// their kind in order, then for presence; other members are ignored.
pub open spec fn version_info_from_json(v: JsonView) -> Result<VersionInfoView, DecodeError> {
    match v {
        JsonView::Object(ms) => {
            let browser = required_string(view_lookup(ms, "Browser"@));
            let protocol = required_string(view_lookup(ms, "Protocol-Version"@));
            let agent = required_string(view_lookup(ms, "User-Agent"@));
            let v8 = component_version(view_lookup(ms, "V8-Version"@));
            let webkit = component_version(view_lookup(ms, "WebKit-Version"@));
            if browser is Err {
                Err(DecodeError::InvalidField("Browser"))
            } else if protocol is Err {
                Err(DecodeError::InvalidField("Protocol-Version"))
            } else if agent is Err {
                Err(DecodeError::InvalidField("User-Agent"))
            } else if v8 is Err {
                Err(DecodeError::InvalidField("V8-Version"))
            } else if webkit is Err {
                Err(DecodeError::InvalidField("WebKit-Version"))
            } else if browser.unwrap() is None {
                Err(DecodeError::MissingField("Browser"))
            } else if protocol.unwrap() is None {
                Err(DecodeError::MissingField("Protocol-Version"))
            } else if agent.unwrap() is None {
                Err(DecodeError::MissingField("User-Agent"))
            } else if v8.unwrap() is None {
                Err(DecodeError::MissingField("V8-Version"))
            } else if webkit.unwrap() is None {
                Err(DecodeError::MissingField("WebKit-Version"))
            } else {
                Ok(
                    VersionInfoView {
                        browser: browser.unwrap().unwrap(),
                        protocol_version: protocol.unwrap().unwrap(),
                        user_agent: agent.unwrap().unwrap(),
                        v8_version: v8.unwrap().unwrap(),
                        webkit_version: webkit.unwrap().unwrap(),
                    },
                )
            }
        },
        _ => Err(DecodeError::NotAnObject),
    }
}

fn component_version_of(v: Option<&JsonValue>) -> (r: Result<Option<Option<String>>, ()>)
    ensures
        match r {
            Ok(None) => component_version(opt_ref_view(v)) == Ok::<Option<Option<Seq<char>>>, ()>(None),
            Ok(Some(s)) => component_version(opt_ref_view(v)) == Ok::<Option<Option<Seq<char>>>, ()>(
                Some(crate::paths::opt_string_view(s)),
            ),
            Err(_) => component_version(opt_ref_view(v)) is Err,
        },
{
    match v {
        None => Ok(None),
        Some(JsonValue::Null) => Ok(Some(None)),
        Some(JsonValue::Str(s)) => if crate::text::str_eq(s.as_str(), UNKNOWN_VERSION) {
            Ok(Some(None))
        } else {
            Ok(Some(Some(s.clone())))
        },
        Some(_) => Err(()),
    }
}

impl VersionInfo {
    /// The version report that a JSON value holds.
    pub fn from_json(v: &JsonValue) -> (r: Result<VersionInfo, DecodeError>)
        ensures
            match r {
                Ok(x) => version_info_from_json(json_view(*v)) == Ok::<VersionInfoView, DecodeError>(version_info_view(x)),
                Err(e) => version_info_from_json(json_view(*v)) == Err::<VersionInfoView, DecodeError>(e),
            },
    {
        let ms = match v {
            JsonValue::Object(ms) => ms,
            _ => {
                return Err(DecodeError::NotAnObject);
            },
        };
        let browser = required_string_of(member_of(ms, "Browser"));
        let protocol = required_string_of(member_of(ms, "Protocol-Version"));
        let agent = required_string_of(member_of(ms, "User-Agent"));
        let v8 = component_version_of(member_of(ms, "V8-Version"));
        let webkit = component_version_of(member_of(ms, "WebKit-Version"));
        let browser = match browser {
            Err(_) => {
                return Err(DecodeError::InvalidField("Browser"));
            },
            Ok(b) => b,
        };
        let protocol = match protocol {
            Err(_) => {
                return Err(DecodeError::InvalidField("Protocol-Version"));
            },
            Ok(p) => p,
        };
        let agent = match agent {
            Err(_) => {
                return Err(DecodeError::InvalidField("User-Agent"));
            },
            Ok(a) => a,
        };
        let v8 = match v8 {
            Err(_) => {
                return Err(DecodeError::InvalidField("V8-Version"));
            },
            Ok(x) => x,
        };
        let webkit = match webkit {
            Err(_) => {
                return Err(DecodeError::InvalidField("WebKit-Version"));
            },
            Ok(x) => x,
        };
        let browser = match browser {
            None => {
                return Err(DecodeError::MissingField("Browser"));
            },
            Some(b) => b,
        };
        let protocol = match protocol {
            None => {
                return Err(DecodeError::MissingField("Protocol-Version"));
            },
            Some(p) => p,
        };
        let agent = match agent {
            None => {
                return Err(DecodeError::MissingField("User-Agent"));
            },
            Some(a) => a,
        };
        let v8 = match v8 {
            None => {
                return Err(DecodeError::MissingField("V8-Version"));
            },
            Some(x) => x,
        };
        let webkit = match webkit {
            None => {
                return Err(DecodeError::MissingField("WebKit-Version"));
            },
            Some(x) => x,
        };
        Ok(VersionInfo { browser, protocol_version: protocol, user_agent: agent, v8_version: v8, webkit_version: webkit })
    }
}

/// The JSON body of a plain HTTP response: the report, the list, the page,
/// or whether the page was activated.
pub open spec fn http_response_json(r: HttpResponse) -> JsonView {
    match r {
        HttpResponse::VersionInfo(v) => version_info_json(v),
        HttpResponse::PageList(pages) => pages_json(pages@),
        HttpResponse::NewPage(p) => page_json(p),
        HttpResponse::ActivatePage(b) => JsonView::Bool(b),
    }
}

impl HttpResponse {
    /// The JSON body of this response.
    pub fn to_json(&self) -> (r: JsonValue)
        ensures
            json_view(r) == http_response_json(*self),
    {
        match self {
            HttpResponse::VersionInfo(v) => v.to_json(),
            HttpResponse::PageList(pages) => pages_to_json(pages.as_slice()),
            HttpResponse::NewPage(p) => p.to_json(),
            HttpResponse::ActivatePage(b) => JsonValue::Bool(*b),
        }
    }
}

} // verus!
