use blaze_app::launch::{decoded_or_raw, initial_path_arg};

#[test]
fn file_uris_are_decoded() {
    assert_eq!(initial_path_arg("file:///tmp/a%20b"), "/tmp/a b");
    assert_eq!(initial_path_arg("file:///home/ana/Im%C3%A1genes"), "/home/ana/Imágenes");
}

#[test]
fn undecodable_uri_keeps_its_raw_text() {
    assert_eq!(initial_path_arg("file:///x%FF"), "/x%FF");
}

#[test]
fn plain_paths_stay() {
    assert_eq!(initial_path_arg("/home/ana"), "/home/ana");
    assert_eq!(initial_path_arg("docs/a%20b"), "docs/a%20b");
    assert_eq!(initial_path_arg("file:/"), "file:/");
    assert_eq!(initial_path_arg(""), "");
}

#[test]
fn decoded_or_raw_prefers_the_decoded_text() {
    assert_eq!(decoded_or_raw(Some("a b".to_string()), "a%20b"), "a b");
    assert_eq!(decoded_or_raw(None, "a%20b"), "a%20b");
}
