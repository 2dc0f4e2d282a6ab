use http_server::response::read_file;
use http_server::response::Body;

#[test]
fn file_contents_round_trip() {
    let contents: Vec<u8> = vec![104, 105];
    let resp = read_file(Ok(contents.clone()));
    assert_eq!(resp.status, 200);
    assert_eq!(resp.location, None);
    match resp.body {
        Body::Bytes(bytes) => assert_eq!(bytes, contents),
        _ => panic!("expected raw bytes"),
    }
}

#[test]
fn failed_read_reports_error_in_body() {
    let resp = read_file(Err("No such file or directory".to_string()));
    assert_eq!(resp.status, 200);
    assert_eq!(resp.location, None);
    match resp.body {
        Body::Text(text) => assert_eq!(text, "Error: No such file or directory"),
        _ => panic!("expected a text body"),
    }
}
