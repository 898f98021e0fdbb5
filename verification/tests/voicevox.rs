use botcast::voicevox::{audio_query_url, synthesis_url, version_url, voicevox_endpoint, VoiceVoxSpeaker};

#[test]
fn zunda_speaks_as_three() {
    assert_eq!(VoiceVoxSpeaker::ZundaNormal.id(), "3");
}

#[test]
fn endpoint_defaults_to_localhost() {
    assert_eq!(voicevox_endpoint(None), "http://localhost:50021");
    assert_eq!(voicevox_endpoint(Some("http://vv:1".to_string())), "http://vv:1");
}

#[test]
fn urls_of_the_engine() {
    let e = "http://localhost:50021";
    assert_eq!(version_url(e), "http://localhost:50021/version");
    assert_eq!(synthesis_url(e, &VoiceVoxSpeaker::ZundaNormal), "http://localhost:50021/synthesis?speaker=3");
    assert_eq!(
        audio_query_url(e, "こんにちは", &VoiceVoxSpeaker::ZundaNormal),
        "http://localhost:50021/audio_query?text=%E3%81%93%E3%82%93%E3%81%AB%E3%81%A1%E3%81%AF&speaker=3"
    );
    assert_eq!(
        audio_query_url(e, "a b&c~", &VoiceVoxSpeaker::ZundaNormal),
        "http://localhost:50021/audio_query?text=a%20b%26c~&speaker=3"
    );
}
