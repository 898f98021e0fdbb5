use botcast::http::{check_json_status, decode_with_declaration, page_text, FetchError};

#[test]
fn page_text_refuses_other_statuses() {
    assert!(matches!(page_text(404, b"<html/>"), Err(FetchError::Status { code: 404 })));
    assert!(matches!(check_json_status(500), Err(FetchError::Status { code: 500 })));
    assert!(check_json_status(200).is_ok());
}

#[test]
fn page_text_reads_utf8_without_declaration() {
    assert_eq!(page_text(200, "こんにちは".as_bytes()).ok(), Some("こんにちは".to_string()));
}

#[test]
fn page_text_refuses_invalid_utf8_without_declaration() {
    assert!(matches!(page_text(200, &[0x82, 0xa0]), Err(FetchError::NotUtf8 { .. })));
}

#[test]
fn page_text_follows_the_xml_declaration() {
    let mut bytes = b"<?xml version=\"1.0\" encoding=\"Shift_JIS\"?><a>".to_vec();
    bytes.extend_from_slice(&[0x82, 0xa0]);
    bytes.extend_from_slice(b"</a>");
    assert_eq!(
        page_text(200, &bytes).ok(),
        Some("<?xml version=\"1.0\" encoding=\"Shift_JIS\"?><a>あ</a>".to_string())
    );
}

#[test]
fn declared_text_wins() {
    assert_eq!(decode_with_declaration(Some("x".to_string()), &[0xff]).ok(), Some("x".to_string()));
    assert!(matches!(decode_with_declaration(None, &[0xff]), Err(FetchError::NotUtf8 { .. })));
}
