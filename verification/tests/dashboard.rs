use androidoscopy::dashboard::{asset_path, asset_response, fallback_response};

#[test]
fn asset_path_drops_the_leading_slashes() {
    assert_eq!(asset_path("/assets/app.js"), "assets/app.js");
    assert_eq!(asset_path("//assets/app.js"), "assets/app.js");
    assert_eq!(asset_path("assets/app.js"), "assets/app.js");
    assert_eq!(asset_path("/a/b/"), "a/b/");
    assert_eq!(asset_path("/sessions/é"), "sessions/é");
}

#[test]
fn asset_path_of_the_root_is_the_index_page() {
    assert_eq!(asset_path("/"), "index.html");
    assert_eq!(asset_path(""), "index.html");
    assert_eq!(asset_path("///"), "index.html");
}

#[test]
fn found_assets_are_served_with_a_guessed_content_type() {
    let response = asset_response("assets/app.js", b"let x;".to_vec());
    assert_eq!(response.status, 200);
    assert_eq!(response.body, b"let x;".to_vec());
    let kind = response.content_type.unwrap();
    assert!(kind.contains("javascript"), "unexpected content type {}", kind);

    let page = asset_response("index.html", Vec::new());
    assert_eq!(page.content_type, Some("text/html".to_string()));
    let style = asset_response("main.css", Vec::new());
    assert_eq!(style.content_type, Some("text/css".to_string()));
    let unknown = asset_response("file.unknown-extension", Vec::new());
    assert_eq!(unknown.content_type, Some("application/octet-stream".to_string()));
    let bare = asset_response("LICENSE", Vec::new());
    assert_eq!(bare.content_type, Some("application/octet-stream".to_string()));
}

#[test]
fn unknown_routes_fall_back_to_the_index_page() {
    let response = fallback_response(Some(b"<html></html>".to_vec()));
    assert_eq!(response.status, 200);
    assert_eq!(response.content_type, Some("text/html".to_string()));
    assert_eq!(response.body, b"<html></html>".to_vec());
}

#[test]
fn without_an_index_page_the_answer_is_not_found() {
    let response = fallback_response(None);
    assert_eq!(response.status, 404);
    assert_eq!(response.content_type, None);
    assert_eq!(response.body, b"Not Found".to_vec());
}
