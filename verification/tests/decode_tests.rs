use http_server::decode::decode_path;

#[test]
fn percent_escape_decodes_before_resolution() {
    assert_eq!(decode_path("/a%20b/"), "/a b/");
}

#[test]
fn plain_path_is_unchanged() {
    assert_eq!(decode_path("/plain/path.txt"), "/plain/path.txt");
}

#[test]
fn malformed_escapes_pass_through() {
    assert_eq!(decode_path("/x%zz"), "/x%zz");
    assert_eq!(decode_path("/trailing%"), "/trailing%");
    assert_eq!(decode_path("/short%2"), "/short%2");
}

#[test]
fn multibyte_escapes_decode() {
    assert_eq!(decode_path("/caf%C3%A9"), "/caf\u{e9}");
}

#[test]
fn invalid_bytes_degrade_to_replacement_characters() {
    assert_eq!(decode_path("/%FF"), "/\u{fffd}");
}

#[test]
fn escapes_decode_case_insensitively() {
    assert_eq!(decode_path("/%2f%2F"), "///");
}
