use site_server::routes::{health, index_reply, route_table, ContentType, Mount};
use site_server::AppState;

#[test]
fn health_is_ok_text() {
    let r = health();
    assert_eq!(r.status, 200);
    assert_eq!(r.content_type, ContentType::PlainText);
    assert_eq!(r.body, "OK");
    assert_eq!(r.content_type.header_value(), "text/plain; charset=utf-8");
}

#[test]
fn health_is_the_same_every_time() {
    let a = health();
    let b = health();
    assert_eq!(a.status, b.status);
    assert_eq!(a.body, b.body);
}

#[test]
fn index_serves_rendered_page_as_html() {
    let page = "<!DOCTYPE html><html><body>hello</body></html>".to_string();
    let r = index_reply(Some(page.clone()));
    assert_eq!(r.status, 200);
    assert_eq!(r.content_type, ContentType::Html);
    assert_eq!(r.content_type.header_value(), "text/html; charset=utf-8");
    assert_eq!(r.body, page);
}

#[test]
fn index_is_byte_stable() {
    let page = "<html><p>static</p></html>".to_string();
    let a = index_reply(Some(page.clone()));
    let b = index_reply(Some(page.clone()));
    assert_eq!(a.status, b.status);
    assert_eq!(a.content_type, b.content_type);
    assert_eq!(a.body.as_bytes(), b.body.as_bytes());
}

#[test]
fn index_render_failure_is_server_error() {
    let r = index_reply(None);
    assert_eq!(r.status, 500);
    assert!(r.body.is_empty());
}

#[test]
fn route_table_lists_the_four_routes() {
    let table = route_table();
    assert_eq!(table.len(), 4);
    assert_eq!(table[0].path, "/");
    assert!(matches!(table[0].mount, Mount::Index));
    assert_eq!(table[1].path, "/health");
    assert!(matches!(table[1].mount, Mount::Health));
    assert_eq!(table[2].path, "/assets");
    assert!(matches!(&table[2].mount, Mount::Directory(d) if d == "assets"));
    assert_eq!(table[3].path, "/favicon.ico");
    assert!(matches!(&table[3].mount, Mount::File(f) if f == "assets/favicon.ico"));
}

#[test]
fn unknown_path_has_no_route() {
    let table = route_table();
    assert!(table.iter().all(|r| r.path != "/does-not-exist"));
}

#[test]
fn app_state_is_cloneable() {
    let state = AppState {};
    let copy = state.clone();
    assert_eq!(format!("{:?}", copy), "AppState");
}
