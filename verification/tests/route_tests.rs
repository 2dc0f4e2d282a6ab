use http_server::response::redirect_response;
use http_server::response::Body;
use http_server::route::dispatch;
use http_server::route::resolve_path;
use http_server::route::Outcome;
use http_server::route::PathKind;

#[test]
fn directory_with_trailing_slash_lists() {
    assert_eq!(dispatch(PathKind::Directory, "/sub/"), Outcome::List);
    assert_eq!(dispatch(PathKind::Directory, "/"), Outcome::List);
}

#[test]
fn directory_without_trailing_slash_redirects() {
    assert_eq!(dispatch(PathKind::Directory, "/sub"), Outcome::Redirect);
    assert_eq!(dispatch(PathKind::Directory, ""), Outcome::Redirect);
}

#[test]
fn file_serves() {
    assert_eq!(dispatch(PathKind::File, "/a.txt"), Outcome::Serve);
}

#[test]
fn missing_is_not_found() {
    assert_eq!(dispatch(PathKind::Missing, "/missing"), Outcome::NotFound);
}

#[test]
fn resolution_concatenates_root_and_path() {
    assert_eq!(resolve_path(".", "/a.txt"), "./a.txt");
    assert_eq!(resolve_path("/srv", "/sub/"), "/srv/sub/");
}

#[test]
fn redirect_appends_separator_with_empty_body() {
    let resp = redirect_response("/sub");
    assert_eq!(resp.status, 301);
    assert_eq!(resp.location, Some("/sub/".to_string()));
    assert!(matches!(resp.body, Body::Empty));
}
