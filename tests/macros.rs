use cdp::urls::{
    activate_page_url, frontend_url, new_page_and_navigate_url, new_page_url, page_list_url, version_info_url, ws_url,
};

#[test]
fn macros_test_ws_url_format() {
    let expected_ws_url = "ws://localhost:9222/devtools/page/0";
    let actual_ws_url = ws_url("localhost:9222", "0");
    assert_eq!(expected_ws_url, actual_ws_url);
}

#[test]
fn macros_test_frontend_url_format() {
    let expected_frontend_url =
        "chrome-devtools://devtools/bundled/inspector.html?ws=localhost:9222/devtools/page/0";
    let actual_frontend_url = frontend_url("localhost:9222", "0");
    assert_eq!(expected_frontend_url, actual_frontend_url);
}

#[test]
fn macros_test_version_info_url_format() {
    let expected_version_info_url = "http://localhost:9222/json/version";
    let actual_version_info_url = version_info_url("localhost:9222");
    assert_eq!(expected_version_info_url, actual_version_info_url);
}

#[test]
fn macros_test_page_list_url_format() {
    let expected_page_list_url = "http://localhost:9222/json/list";
    let actual_page_list_url = page_list_url("localhost:9222");
    assert_eq!(expected_page_list_url, actual_page_list_url);
}

#[test]
fn macros_test_new_page_url_format() {
    let expected_new_page_url = "http://localhost:9222/json/new";
    let actual_new_page_url = new_page_url("localhost:9222");
    assert_eq!(expected_new_page_url, actual_new_page_url);
}

#[test]
fn macros_test_new_page_and_nav_url_format() {
    let expected_new_page_and_nav_url = "http://localhost:9222/json/new?https://www.mozilla.org";
    let actual_new_page_and_nav_url = new_page_and_navigate_url("localhost:9222", "https://www.mozilla.org");
    assert_eq!(expected_new_page_and_nav_url, actual_new_page_and_nav_url);
}

#[test]
fn macros_test_activate_page_url_format() {
    let expected_activate_page_url = "http://localhost:9222/json/activate/0";
    let actual_activate_page_url = activate_page_url("localhost:9222", "0");
    assert_eq!(expected_activate_page_url, actual_activate_page_url);
}
