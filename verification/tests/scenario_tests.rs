//! One request of each kind against a small tree: a root holding the file
//! `a.txt` with content `hi` and the empty directory `sub`.

use http_server::decode::decode_path;
use http_server::listing::list_directory;
use http_server::listing::not_found;
use http_server::response::read_file;
use http_server::response::redirect_response;
use http_server::response::Body;
use http_server::route::dispatch;
use http_server::route::resolve_path;
use http_server::route::Outcome;
use http_server::route::PathKind;
use tera::Tera;

fn test_templates() -> Tera {
    let mut tera = Tera::default();
    tera.add_raw_template(
        "listing.html",
        "{% for e in entries %}[{{ e | safe }}]{% endfor %}",
    )
    .unwrap();
    tera.add_raw_template("error.html", "{{ error_code }} {{ message }}").unwrap();
    tera
}

#[test]
fn get_existing_file_serves_its_bytes() {
    let path = decode_path("/a.txt");
    assert_eq!(resolve_path("/srv", &path), "/srv/a.txt");
    assert_eq!(dispatch(PathKind::File, &path), Outcome::Serve);
    let resp = read_file(Ok(b"hi".to_vec()));
    assert_eq!(resp.status, 200);
    match resp.body {
        Body::Bytes(bytes) => assert_eq!(bytes, b"hi"),
        _ => panic!("expected raw bytes"),
    }
}

#[test]
fn get_directory_without_slash_redirects() {
    let path = decode_path("/sub");
    assert_eq!(dispatch(PathKind::Directory, &path), Outcome::Redirect);
    let resp = redirect_response(&path);
    assert_eq!(resp.status, 301);
    assert_eq!(resp.location, Some("/sub/".to_string()));
    assert!(matches!(resp.body, Body::Empty));
}

#[test]
fn get_empty_directory_lists_parent_entry_only() {
    let path = decode_path("/sub/");
    assert_eq!(dispatch(PathKind::Directory, &path), Outcome::List);
    let tera = test_templates();
    let resp = list_directory(&tera, &path, Ok(vec![]));
    assert_eq!(resp.status, 200);
    match resp.body {
        Body::Text(text) => assert_eq!(text, "[../]"),
        _ => panic!("expected a text body"),
    }
}

#[test]
fn get_missing_path_is_not_found() {
    let path = decode_path("/missing");
    assert_eq!(dispatch(PathKind::Missing, &path), Outcome::NotFound);
    let tera = test_templates();
    let resp = not_found(&tera);
    assert_eq!(resp.status, 404);
    match resp.body {
        Body::Text(text) => assert_eq!(text, "404 File not found"),
        _ => panic!("expected a text body"),
    }
}
