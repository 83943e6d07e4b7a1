use cdp::paths::{parse_path, parse_path_with_slash, parse_websocket_path_with_slash};
use cdp::urls::{frontend_url, websocket_url, ws_url, WsEndpoint};

#[test]
fn ws_test_ws_url_format() {
    let expected_ws_url = "ws://localhost:9222/devtools/page/0";
    let actual_ws_url = ws_url("localhost:9222", "0");
    assert_eq!(expected_ws_url, actual_ws_url);
}

#[test]
fn ws_test_frontend_url_format() {
    let expected_frontend_url =
        "chrome-devtools://devtools/bundled/inspector.html?ws=localhost:9222/devtools/page/0";
    let actual_frontend_url = frontend_url("localhost:9222", "0");
    assert_eq!(expected_frontend_url, actual_frontend_url);
}

#[test]
fn test_parse_path() {
    assert_eq!(parse_path(""), None);
    assert_eq!(parse_path("foo"), None);
    assert_eq!(parse_path("devtools/page"), None);
    assert_eq!(parse_path("devtools/page/"), Some(""));
    assert_eq!(parse_path("devtools/page/0"), Some("0"));
    assert_eq!(parse_path("devtools/page/0/"), Some("0/"));
    assert_eq!(parse_path("devtools/page/0/1"), Some("0/1"));

    assert_eq!(parse_path("/"), None);
    assert_eq!(parse_path("/foo"), None);
    assert_eq!(parse_path("/devtools/page"), None);
    assert_eq!(parse_path("/devtools/page/"), None);
    assert_eq!(parse_path("/devtools/page/0"), None);
    assert_eq!(parse_path("/devtools/page/0/"), None);
    assert_eq!(parse_path("/devtools/page/0/1"), None);
}

#[test]
fn test_parse_path_with_slash() {
    assert_eq!(parse_path_with_slash("/"), None);
    assert_eq!(parse_path_with_slash("/foo"), None);
    assert_eq!(parse_path_with_slash("/devtools/page"), None);
    assert_eq!(parse_path_with_slash("/devtools/page/"), Some(""));
    assert_eq!(parse_path_with_slash("/devtools/page/0"), Some("0"));
    assert_eq!(parse_path_with_slash("/devtools/page/0/"), Some("0/"));
    assert_eq!(parse_path_with_slash("/devtools/page/0/1"), Some("0/1"));

    assert_eq!(parse_path_with_slash(""), None);
    assert_eq!(parse_path_with_slash("foo"), None);
    assert_eq!(parse_path_with_slash("devtools/page"), None);
    assert_eq!(parse_path_with_slash("devtools/page/"), None);
    assert_eq!(parse_path_with_slash("devtools/page/0"), None);
    assert_eq!(parse_path_with_slash("devtools/page/0/"), None);
    assert_eq!(parse_path_with_slash("devtools/page/0/1"), None);
}

#[test]
fn test_websocket_url_format() {
    let expected_websocket_url = "ws://localhost:9222/devtools/page/0";
    let actual_websocket_url = websocket_url("localhost:9222", "0");
    assert_eq!(expected_websocket_url, actual_websocket_url);
}

#[test]
fn websocket_path_keeps_the_page_id() {
    assert_eq!(parse_websocket_path_with_slash("/devtools/page/abc"), Some("abc"));
    assert_eq!(parse_websocket_path_with_slash("/devtools/page/a\nb"), None);
}

#[test]
fn endpoint_urls() {
    assert_eq!("ws://h:1/devtools/browser", WsEndpoint::browser_endpoint_url("h:1", None));
    assert_eq!("ws://h:1/devtools/browser/x", WsEndpoint::browser_endpoint_url("h:1", Some("x")));
    assert_eq!("ws://h:1/devtools/page/p", WsEndpoint::page_endpoint_url("h:1", "p"));
    assert_eq!("ws://h:1/devtools/browser/b", WsEndpoint::Browser(Some("b".into())).url("h:1"));
    assert_eq!("ws://h:1/devtools/page/q", WsEndpoint::Page("q".into()).url("h:1"));
}
