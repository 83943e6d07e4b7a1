use cdp::greeter::HttpResponse;
use cdp::paths::{HttpCommand, OwnedHttpCommand};
use cdp::urls::{activate_page_url, frontend_url, new_page_and_navigate_url, new_page_url, page_list_url, version_info_url};

#[test]
fn http_test_frontend_url_format() {
    let expected_frontend_url = "chrome-devtools://devtools/bundled/inspector.html?ws=localhost:\
                                 9222/devtools/page/0";
    let actual_frontend_url = frontend_url("localhost:9222", "0");
    assert_eq!(expected_frontend_url, actual_frontend_url);
}

#[test]
fn http_test_version_info_url_format() {
    let expected_version_info_url = "http://localhost:9222/json/version";
    let actual_version_info_url = version_info_url("localhost:9222");
    assert_eq!(expected_version_info_url, actual_version_info_url);
}

#[test]
fn http_test_page_list_url_format() {
    let expected_page_list_url = "http://localhost:9222/json/list";
    let actual_page_list_url = page_list_url("localhost:9222");
    assert_eq!(expected_page_list_url, actual_page_list_url);
}

#[test]
fn http_test_new_page_url_format() {
    let expected_new_page_url = "http://localhost:9222/json/new";
    let actual_new_page_url = new_page_url("localhost:9222");
    assert_eq!(expected_new_page_url, actual_new_page_url);
}

#[test]
fn http_test_new_page_and_nav_url_format() {
    let expected_new_page_and_nav_url = "http://localhost:9222/json/new?https://www.mozilla.org";
    let actual_new_page_and_nav_url = new_page_and_navigate_url("localhost:9222", "https://www.mozilla.org");
    assert_eq!(expected_new_page_and_nav_url, actual_new_page_and_nav_url);
}

#[test]
fn http_test_activate_page_url_format() {
    let expected_activate_page_url = "http://localhost:9222/json/activate/0";
    let actual_activate_page_url = activate_page_url("localhost:9222", "0");
    assert_eq!(expected_activate_page_url, actual_activate_page_url);
}

#[test]
fn test_http_command_unknown() {
    assert!(HttpCommand::parse("foo", None).is_none());
    assert!(HttpCommand::parse("json/", None).is_none());
    assert!(HttpCommand::parse("json/foo", None).is_none());

    assert!(HttpCommand::parse_with_slash("/foo", None).is_none());
    assert!(HttpCommand::parse_with_slash("/json/", None).is_none());
    assert!(HttpCommand::parse_with_slash("/json/foo", None).is_none());

    assert!(OwnedHttpCommand::parse("foo", None).is_none());
    assert!(OwnedHttpCommand::parse("json/", None).is_none());
    assert!(OwnedHttpCommand::parse("json/foo", None).is_none());

    assert!(OwnedHttpCommand::parse_with_slash("/foo", None).is_none());
    assert!(OwnedHttpCommand::parse_with_slash("/json/", None).is_none());
    assert!(OwnedHttpCommand::parse_with_slash("/json/foo", None).is_none());
}

#[test]
fn test_http_command_missing_slash() {
    assert!(HttpCommand::parse_with_slash("", None).is_none());
    assert!(HttpCommand::parse_with_slash("foo", None).is_none());

    assert!(OwnedHttpCommand::parse_with_slash("", None).is_none());
    assert!(OwnedHttpCommand::parse_with_slash("foo", None).is_none());
}

#[test]
fn test_http_command_version_info() {
    do_test_http_command("json/version", None, OwnedHttpCommand::VersionInfo);
}

#[test]
fn test_http_command_page_list() {
    do_test_http_command("json/list", None, OwnedHttpCommand::PageList);
    do_test_http_command("json", None, OwnedHttpCommand::PageList);
}

#[test]
fn test_http_command_new_page() {
    do_test_http_command("json/new", None, OwnedHttpCommand::NewPage(None));
    do_test_http_command(
        "json/new",
        Some("https://www.mozilla.org"),
        OwnedHttpCommand::NewPage(Some("https://www.mozilla.org".into())),
    );
}

#[test]
fn test_http_command_activate_page() {
    do_test_http_command("json/activate/0", None, OwnedHttpCommand::ActivatePage("0".into()));
    do_test_http_command("json/activate/0/", None, OwnedHttpCommand::ActivatePage("0/".into()));
    do_test_http_command(
        "json/activate/0/foo",
        None,
        OwnedHttpCommand::ActivatePage("0/foo".into()),
    );
}

fn do_test_http_command(path: &str, query: Option<&str>, owned_command: OwnedHttpCommand) {
    let borrowed_command = HttpCommand::from_owned(&owned_command);
    assert_eq!(OwnedHttpCommand::from_borrowed(&borrowed_command), owned_command);

    let borrowed_parsed_command = HttpCommand::parse(path, query).expect("borrowed command parse error");

    let path_with_slash = format!("/{}", path);
    let borrowed_parsed_command_with_slash = HttpCommand::parse_with_slash(path_with_slash.as_str(), query)
        .expect("borrowed command parse with slash error");

    assert_eq!(borrowed_command, borrowed_parsed_command);
    assert_eq!(borrowed_command, borrowed_parsed_command_with_slash);
    assert_eq!(borrowed_parsed_command, borrowed_parsed_command_with_slash);

    let owned_parsed_command = OwnedHttpCommand::parse(path, query).expect("owned command parse error");
    let owned_parsed_command_with_slash = OwnedHttpCommand::parse_with_slash(format!("/{}", path).as_str(), query)
        .expect("owned command parse with slash error");

    assert_eq!(owned_command, owned_parsed_command);
    assert_eq!(owned_command, owned_parsed_command_with_slash);
    assert_eq!(owned_parsed_command, owned_parsed_command_with_slash);
}

#[test]
fn test_http_response_activate_page() {
    assert_eq!(HttpResponse::ActivatePage(true).status(), 200);
    assert_eq!(HttpResponse::ActivatePage(false).status(), 404);
}

#[test]
fn slug_followed_by_more_path_still_names_the_request() {
    assert_eq!(HttpCommand::parse("json/version/extra", None), Some(HttpCommand::VersionInfo));
    assert_eq!(HttpCommand::parse("json/activate", None), Some(HttpCommand::ActivatePage("")));
    assert_eq!(HttpCommand::parse("jsonx", None), None);
    assert_eq!(HttpCommand::parse("json/activate/a\nb", None), None);
    assert_eq!(HttpCommand::parse("json/ver\nsion", None), None);
}
