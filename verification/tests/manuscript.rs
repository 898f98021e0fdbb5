use botcast::manuscript::{plan_sentences, Manuscript, Section};
use botcast::urn::UrnError;

fn serif(speaker: &str, text: &str) -> Section {
    Section::Serif { speaker: speaker.to_string(), text: text.to_string() }
}

#[test]
fn each_spoken_piece_reads_the_whole_text() {
    let m = Manuscript {
        title: "t".to_string(),
        sections: vec![serif("urn:voicevox:3", "こんにちは。元気？\n \n"), serif("urn:voicevox:1", "bye")],
    };
    let plan = plan_sentences(&m).ok().expect("valid speakers");
    let got: Vec<(String, String, String)> =
        plan.iter().map(|s| (s.generator.clone(), s.speaker_id.clone(), s.text.clone())).collect();
    let whole = "こんにちは。元気？\n \n".to_string();
    assert_eq!(
        got,
        vec![
            ("voicevox".to_string(), "3".to_string(), whole.clone()),
            ("voicevox".to_string(), "3".to_string(), whole),
            ("voicevox".to_string(), "1".to_string(), "bye".to_string()),
        ]
    );
}

#[test]
fn a_speaker_that_is_no_urn_stops_the_plan() {
    let m = Manuscript {
        title: "t".to_string(),
        sections: vec![serif("urn:voicevox:3", "a"), serif("zunda", "b"), serif("also bad", "c")],
    };
    match plan_sentences(&m) {
        Err(UrnError::Invalid { urn }) => assert_eq!(urn, "zunda"),
        Ok(_) => panic!("accepted a speaker without a URN"),
    }
}

#[test]
fn an_empty_manuscript_has_no_sentences() {
    let m = Manuscript { title: "t".to_string(), sections: vec![] };
    assert_eq!(plan_sentences(&m).ok().map(|v| v.len()), Some(0));
}
