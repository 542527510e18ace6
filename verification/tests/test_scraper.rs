//! Scraping the server list and the session variables out of page text.

use akinator_rs::enums::Theme;
use akinator_rs::error::Error;
use akinator_rs::scraper::{find_server_entry, find_session_vars};

fn discovery_page() -> String {
    let mut html = String::new();
    html.push_str("<html><head></head><body><script>var data = ");
    html.push_str("[{\"translated_theme_name\":\"Characters\",\"urlWs\":\"https:\\/\\/srv2.akinator.com:9161\\/ws\",\"subject_id\":\"1\"},");
    html.push_str("{\"translated_theme_name\":\"Objects\",\"urlWs\":\"https:\\/\\/srv3.akinator.com:9331\\/ws\",\"subject_id\":\"2\"},");
    html.push_str("{\"translated_theme_name\":\"Animals\",\"urlWs\":\"https:\\/\\/srv4.akinator.com:9412\\/ws\",\"subject_id\":\"14\"}]");
    html.push_str(";</script></body></html>");
    html
}

#[test]
fn theme_filter_picks_the_matching_subject_id() {
    let html = discovery_page();
    let url = find_server_entry(&html, Theme::Objects).unwrap();
    assert_eq!(url, "https://srv3.akinator.com:9331/ws");
}

#[test]
fn each_theme_resolves_its_own_server() {
    let html = discovery_page();
    assert_eq!(
        find_server_entry(&html, Theme::Characters).unwrap(),
        "https://srv2.akinator.com:9161/ws"
    );
    assert_eq!(
        find_server_entry(&html, Theme::Animals).unwrap(),
        "https://srv4.akinator.com:9412/ws"
    );
}

#[test]
fn missing_theme_id_is_no_data() {
    let html = "junk [{\"translated_theme_name\":\"X\",\"urlWs\":\"u\",\"subject_id\":\"7\"}] junk";
    let r = find_server_entry(html, Theme::Objects);
    assert!(matches!(r, Err(Error::NoDataFound)));
}

#[test]
fn page_without_server_list_is_no_data() {
    let r = find_server_entry("<html>nothing here</html>", Theme::Characters);
    assert!(matches!(r, Err(Error::NoDataFound)));
}

#[test]
fn server_list_matching_ignores_ascii_case() {
    let html = "[{\"TRANSLATED_THEME_NAME\":\"X\",\"URLWS\":\"wsurl\",\"SUBJECT_ID\":\"1\"}]";
    let url = find_server_entry(html, Theme::Characters).unwrap();
    assert_eq!(url, "wsurl");
}

#[test]
fn duplicate_subject_ids_pick_the_first_entry() {
    let mut html = String::new();
    html.push_str("[{\"translated_theme_name\":\"A\",\"urlWs\":\"first\",\"subject_id\":\"2\"},");
    html.push_str("{\"translated_theme_name\":\"B\",\"urlWs\":\"second\",\"subject_id\":\"2\"}]");
    let url = find_server_entry(&html, Theme::Objects).unwrap();
    assert_eq!(url, "first");
}

#[test]
fn only_slash_escapes_are_collapsed_in_urls() {
    let html = "[{\"translated_theme_name\":\"T\",\"urlWs\":\"a\\b:\\/\\/c\",\"subject_id\":\"1\"}]";
    let url = find_server_entry(html, Theme::Characters).unwrap();
    assert_eq!(url, "a\\b://c");
}

#[test]
fn session_vars_are_read_from_consecutive_lines() {
    let html = "<script>\nvar uid_ext_session = 'abc-123';\n  var frontaddr = 'QmFzZTY0';\n</script>";
    let (uid, front) = find_session_vars(html).unwrap();
    assert_eq!(uid, "abc-123");
    assert_eq!(front, "QmFzZTY0");
}

#[test]
fn session_vars_on_distant_lines_are_no_data() {
    let html = "var uid_ext_session = 'abc';\n\nvar frontaddr = 'xyz';";
    let r = find_session_vars(html);
    assert!(matches!(r, Err(Error::NoDataFound)));
}

#[test]
fn page_without_session_vars_is_no_data() {
    let r = find_session_vars("<html>empty</html>");
    assert!(matches!(r, Err(Error::NoDataFound)));
}
