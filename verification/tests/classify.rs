use omarchy_quickshare::request::{request, request_for_peer, ControlRequest};
use omarchy_quickshare::uri::{decode_local_file_uri, file_uri_lines, file_uri_path, percent_decode, UriError};

#[test]
fn remote_file_uri_is_rejected() {
    let error = request("file://example.com/tmp/note.txt", None, false).expect_err("remote host");
    assert!(matches!(error, UriError::RemoteHost));
}

#[test]
fn malformed_percent_escape_is_rejected() {
    let error = request("file:///tmp/Quick%2Share.apk", None, false).expect_err("malformed");
    assert!(matches!(error, UriError::Malformed));
}

#[test]
fn nul_in_file_uri_is_rejected() {
    let error = request("file:///tmp/Quick%00Share.apk", None, false).expect_err("nul");
    assert!(matches!(error, UriError::Nul));
}

#[test]
fn multi_entry_uri_list_is_rejected() {
    let error = request("file:///tmp/a\nfile:///tmp/b", None, false).expect_err("multi");
    assert!(matches!(error, UriError::MultipleEntries));
}

#[test]
fn missing_file_uri_does_not_fall_back_to_text() {
    let error = request("file:///no-such-quickshare-file", None, false).expect_err("missing");
    assert!(matches!(error, UriError::MissingPath));
}

#[test]
fn plain_text_and_urls_keep_existing_classification() {
    assert!(matches!(
        request("hello", None, false).expect("text"),
        ControlRequest::SubmitText { text, peer_id: None } if text == "hello"
    ));
    assert!(matches!(
        request("https://example.com", None, false).expect("url"),
        ControlRequest::SubmitUrl { url, peer_id: None } if url == "https://example.com"
    ));
}

#[test]
fn peer_targeted_text_keeps_content_and_recipient_together() {
    assert!(matches!(
        request_for_peer("hello", None, false, Some(String::from("pixel-8"))).expect("targeted text"),
        ControlRequest::SubmitText { text, peer_id: Some(peer) } if text == "hello" && peer == "pixel-8"
    ));
}

#[test]
fn clipboard_literal_text_and_url_preserve_original_bytes() {
    let text = "  ./captured A.txt\r\nhttps://example.test/\u{732b}\n";
    let url = "https://example.test/\u{732b}?q=%20+value\n";
    assert!(matches!(
        request(text, None, false).expect("literal text"),
        ControlRequest::SubmitText { text: t, peer_id: None } if t == text
    ));
    assert!(matches!(
        request(url, None, false).expect("literal URL"),
        ControlRequest::SubmitUrl { url: u, peer_id: None } if u == url
    ));
}

#[test]
fn existing_local_path_becomes_a_file_share() {
    assert!(matches!(
        request("note.txt", Some(String::from("/home/u/note.txt")), false).expect("file"),
        ControlRequest::SubmitFile { path, peer_id: None } if path == "/home/u/note.txt"
    ));
}

#[test]
fn encoded_file_uri_decodes_spaces_and_localhost() {
    assert_eq!(decode_local_file_uri("file:///tmp/Quick%20Share.apk").expect("decoded"), "/tmp/Quick Share.apk");
    assert_eq!(decode_local_file_uri("file://localhost/tmp/note.txt").expect("local"), "/tmp/note.txt");
    assert!(matches!(
        request("file:///tmp/Quick%20Share.apk", None, true).expect("file"),
        ControlRequest::SubmitFile { path, peer_id: None } if path == "/tmp/Quick Share.apk"
    ));
}

#[test]
fn uri_list_comments_and_blank_lines_are_dropped() {
    let lines = file_uri_lines("# captured\n\nfile:///tmp/a.txt\r\n");
    assert_eq!(lines, vec![String::from("file:///tmp/a.txt")]);
    assert_eq!(file_uri_path("# captured\nfile:///tmp/a.txt\r\n").expect("path"), Some(String::from("/tmp/a.txt")));
    assert_eq!(file_uri_path("just text").expect("no uri"), None);
}

#[test]
fn percent_decoding_reads_hex_pairs() {
    assert_eq!(percent_decode("a%41%62c").expect("decoded"), b"aAbc".to_vec());
    assert!(matches!(percent_decode("%4"), Err(UriError::Malformed)));
}
