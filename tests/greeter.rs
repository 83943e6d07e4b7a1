use cdp::greeter::{
    GreeterActivatePageResponse, GreeterErrorResponse, GreeterNewPageResponse, GreeterPageListResponse,
    GreeterVersionInfoResponse, Page, PageType, VersionInfo,
};
use cdp::paths::{GreeterRequest, OwnedGreeterRequest};
use cdp::urls::DevToolsUrls;

#[test]
fn test_command_unknown() {
    assert!(GreeterRequest::parse("foo", None).is_none());
    assert!(GreeterRequest::parse("json/", None).is_none());
    assert!(GreeterRequest::parse("json/foo", None).is_none());

    assert!(GreeterRequest::parse_with_slash("/foo", None).is_none());
    assert!(GreeterRequest::parse_with_slash("/json/", None).is_none());
    assert!(GreeterRequest::parse_with_slash("/json/foo", None).is_none());

    assert!(OwnedGreeterRequest::parse("foo", None).is_none());
    assert!(OwnedGreeterRequest::parse("json/", None).is_none());
    assert!(OwnedGreeterRequest::parse("json/foo", None).is_none());

    assert!(OwnedGreeterRequest::parse_with_slash("/foo", None).is_none());
    assert!(OwnedGreeterRequest::parse_with_slash("/json/", None).is_none());
    assert!(OwnedGreeterRequest::parse_with_slash("/json/foo", None).is_none());
}

#[test]
fn test_command_missing_slash() {
    assert!(GreeterRequest::parse_with_slash("", None).is_none());
    assert!(GreeterRequest::parse_with_slash("foo", None).is_none());

    assert!(OwnedGreeterRequest::parse_with_slash("", None).is_none());
    assert!(OwnedGreeterRequest::parse_with_slash("foo", None).is_none());
}

#[test]
fn test_command_version_info() {
    do_test_command("json/version", None, &OwnedGreeterRequest::VersionInfo);
}

#[test]
fn test_command_page_list() {
    do_test_command("json/list", None, &OwnedGreeterRequest::PageList);
    do_test_command("json", None, &OwnedGreeterRequest::PageList);
}

#[test]
fn test_command_new_page() {
    do_test_command("json/new", None, &OwnedGreeterRequest::NewPage(None));
    do_test_command(
        "json/new",
        Some("https://www.mozilla.org"),
        &OwnedGreeterRequest::NewPage(Some("https://www.mozilla.org".into())),
    );
}

#[test]
fn test_command_activate_page() {
    do_test_command("json/activate/0", None, &OwnedGreeterRequest::ActivatePage("0".into()));
    do_test_command("json/activate/0/", None, &OwnedGreeterRequest::ActivatePage("0/".into()));
    do_test_command(
        "json/activate/0/foo",
        None,
        &OwnedGreeterRequest::ActivatePage("0/foo".into()),
    );
}

fn do_test_command(path: &str, query: Option<&str>, owned_command: &OwnedGreeterRequest) {
    let borrowed_command = GreeterRequest::from_owned(owned_command);
    assert_eq!(&OwnedGreeterRequest::from_borrowed(&borrowed_command), owned_command);

    let borrowed_parsed_command =
        GreeterRequest::parse(path, query).expect("borrowed command parse error");

    let path_with_slash = format!("/{}", path);
    let borrowed_parsed_command_with_slash =
        GreeterRequest::parse_with_slash(path_with_slash.as_str(), query)
            .expect("borrowed command parse with slash error");

    assert_eq!(borrowed_command, borrowed_parsed_command);
    assert_eq!(borrowed_command, borrowed_parsed_command_with_slash);
    assert_eq!(borrowed_parsed_command, borrowed_parsed_command_with_slash);

    let owned_parsed_command =
        OwnedGreeterRequest::parse(path, query).expect("owned command parse error");
    let owned_parsed_command_with_slash =
        OwnedGreeterRequest::parse_with_slash(format!("/{}", path).as_str(), query)
            .expect("owned command parse with slash error");

    assert_eq!(owned_command, &owned_parsed_command);
    assert_eq!(owned_command, &owned_parsed_command_with_slash);
    assert_eq!(owned_parsed_command, owned_parsed_command_with_slash);
}

fn sample_page() -> Page {
    Page {
        id: "0".into(),
        ty: PageType::Tab,
        url: "https://www.mozilla.org".into(),
        title: "Mozilla".into(),
        description: None,
        favicon_url: Some("https://www.mozilla.org/favicon.ico".into()),
        devtools_urls: Some(DevToolsUrls::new("127.0.0.1:9222", "0")),
    }
}

#[test]
fn test_response_version_info() {
    let json = "{\"Browser\":\"Mozzarella \
                Foxfire\",\"Protocol-Version\":\"0.0\",\"User-Agent\":\"Mozzarella/5.0 \
                Gouda/20100101 Foxfire/57.0\",\"V8-Version\":\"0\",\"WebKit-Version\":\"0\"}";
    let version_info = VersionInfo {
        browser: "Mozzarella Foxfire".into(),
        protocol_version: "0.0".into(),
        user_agent: "Mozzarella/5.0 Gouda/20100101 Foxfire/57.0".into(),
        v8_version: None,
        webkit_version: None,
    };
    let rust = GreeterVersionInfoResponse(&version_info);

    assert_eq!(rust.status(), 200);

    let mut string = String::new();
    rust.serialize_body_to_string(&mut string).expect("serialize_body_to_string error");
    assert_eq!(json, &string);
}

#[test]
fn test_response_page_list() {
    let json = "[{\"description\":\"\",\"devtoolsFrontendUrl\":\"chrome-devtools:\
                //devtools/bundled/inspector.html?ws=127.0.0.1:9222/devtools/page/0\",\
                \"faviconUrl\":\"https://www.mozilla.org/favicon.ico\",\"id\":\"0\",\"title\":\
                \"Mozilla\",\"type\":\"page\",\"url\":\"https://www.mozilla.org\",\
                \"webSocketDebuggerUrl\":\"ws://127.0.0.1:9222/devtools/page/0\"}]";

    let pages = vec![sample_page()];
    let rust = GreeterPageListResponse(&pages);

    assert_eq!(rust.status(), 200);

    let mut string = String::new();
    rust.serialize_body_to_string(&mut string).expect("serialize_body_to_string error");
    assert_eq!(json, &string);
}

#[test]
fn test_response_new_page() {
    let json = "{\"description\":\"\",\"devtoolsFrontendUrl\":\"chrome-devtools:\
                //devtools/bundled/inspector.html?ws=127.0.0.1:9222/devtools/page/0\",\
                \"faviconUrl\":\"https://www.mozilla.org/favicon.ico\",\"id\":\"0\",\"title\":\
                \"Mozilla\",\"type\":\"page\",\"url\":\"https://www.mozilla.org\",\
                \"webSocketDebuggerUrl\":\"ws://127.0.0.1:9222/devtools/page/0\"}";
    let page = sample_page();
    let rust = GreeterNewPageResponse(&page);

    assert_eq!(rust.status(), 200);

    let mut string = String::new();
    rust.serialize_body_to_string(&mut string).expect("serialize_body_to_string error");
    assert_eq!(json, &string);
}

#[test]
fn test_response_activate_page_activated() {
    let rust = GreeterActivatePageResponse::Activated;

    assert_eq!(rust.status(), 200);

    let mut string = String::new();
    rust.serialize_body_to_string(&mut string).expect("serialize_body_to_string error");
    assert_eq!("", &string);
}

#[test]
fn test_response_activate_page_not_found() {
    let rust = GreeterActivatePageResponse::PageNotFound;

    assert_eq!(rust.status(), 404);

    let mut string = String::new();
    rust.serialize_body_to_string(&mut string).expect("serialize_body_to_string error");
    assert_eq!("", &string);
}

#[test]
fn test_response_error() {
    let rust = GreeterErrorResponse;

    assert_eq!(rust.status(), 500);

    let mut string = String::new();
    rust.serialize_body_to_string(&mut string).expect("serialize_body_to_string error");
    assert_eq!("", &string);
}

#[test]
fn page_without_urls_omits_them() {
    let page = Page {
        id: "7".into(),
        ty: PageType::ServiceWorker,
        url: "https://example.org/sw.js".into(),
        title: "worker".into(),
        description: Some("a \"quoted\" worker".into()),
        favicon_url: None,
        devtools_urls: None,
    };
    let rust = GreeterNewPageResponse(&page);
    let mut string = String::new();
    rust.serialize_body_to_string(&mut string).unwrap();
    assert_eq!(
        "{\"description\":\"a \\\"quoted\\\" worker\",\"id\":\"7\",\"title\":\"worker\",\
         \"type\":\"service_worker\",\"url\":\"https://example.org/sw.js\"}",
        &string
    );
}

#[test]
fn version_info_keeps_known_component_versions() {
    let version_info = VersionInfo {
        browser: "B".into(),
        protocol_version: "1.3".into(),
        user_agent: "UA".into(),
        v8_version: Some("11.2".into()),
        webkit_version: None,
    };
    let mut string = String::new();
    GreeterVersionInfoResponse(&version_info).serialize_body_to_string(&mut string).unwrap();
    assert_eq!(
        "{\"Browser\":\"B\",\"Protocol-Version\":\"1.3\",\"User-Agent\":\"UA\",\"V8-Version\":\"11.2\",\"WebKit-Version\":\"0\"}",
        &string
    );
}

#[test]
fn page_type_names() {
    assert_eq!("page", PageType::Tab.wire_name());
    assert_eq!("background_page", PageType::Background.wire_name());
    assert_eq!("background page", PageType::Background.to_string());
    assert_eq!("other page", PageType::Other.to_string());
}
