use botcast::urn::{parse_urn, Urn, UrnError};

fn parts(text: &str) -> Option<(String, String)> {
    parse_urn(&Urn(text.to_string())).ok()
}

#[test]
fn parse_urn_splits_resource_and_id() {
    assert_eq!(parts("urn:voicevox:3"), Some(("voicevox".to_string(), "3".to_string())));
}

#[test]
fn parse_urn_keeps_colons_in_the_id() {
    assert_eq!(parts("urn:podcast:a:b:c"), Some(("podcast".to_string(), "a:b:c".to_string())));
}

#[test]
fn parse_urn_accepts_empty_parts() {
    assert_eq!(parts("urn::"), Some((String::new(), String::new())));
}

#[test]
fn parse_urn_refuses_other_signatures() {
    assert_eq!(parts("nru:voicevox:3"), None);
    assert_eq!(parts("URN:voicevox:3"), None);
}

#[test]
fn parse_urn_refuses_too_few_parts() {
    assert_eq!(parts("urn:voicevox"), None);
    assert_eq!(parts("urn"), None);
    assert_eq!(parts(""), None);
}

#[test]
fn invalid_urn_message_names_the_text() {
    match parse_urn(&Urn("speaker".to_string())) {
        Err(e) => {
            assert!(matches!(&e, UrnError::Invalid { urn } if urn == "speaker"));
            assert_eq!(e.message(), "Invalid URN: speaker");
        }
        Ok(_) => panic!("accepted a text without colons"),
    }
}
