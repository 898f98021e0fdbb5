use botcast::imports::api::{GetComment, GetEpisode, GetPodcast, GetScript, NewComment, NewEpisode};
use botcast::manuscript::Section;
use botcast::plugins::botcast_api::BotCastApiPlugin;
use botcast::requests::{new_episode_request, update_episode_request};
use botcast::script::{ArgError, JsonNumber, JsonValue};

fn s(text: &str) -> JsonValue {
    JsonValue::String(text.to_string())
}

fn serif(speaker: &str, text: &str) -> Section {
    Section::Serif { speaker: speaker.to_string(), text: text.to_string() }
}

fn sections() -> Result<Vec<Section>, ArgError> {
    Ok(vec![serif("urn:voicevox:3", "hello")])
}

#[test]
fn lookups_read_the_id() {
    let args = vec![s("id-7")];
    assert_eq!(GetPodcast::new(()).podcast_id(&args).ok(), Some("id-7".to_string()));
    assert_eq!(GetEpisode::new(()).episode_id(&args).ok(), Some("id-7".to_string()));
    assert_eq!(GetComment::new(()).comment_id(&args).ok(), Some("id-7".to_string()));
    assert_eq!(GetScript::new(()).script_id(&args).ok(), Some("id-7".to_string()));
    let bad = vec![JsonValue::Null];
    assert!(GetPodcast::new(()).podcast_id(&bad).err() == Some(ArgError::ExpectedString));
    assert!(BotCastApiPlugin::new(std::sync::Arc::new(())).lookup_id(&bad).err() == Some(ArgError::ExpectedString));
}

#[test]
fn new_comment_reads_episode_and_content() {
    let c = NewComment::new(());
    assert_eq!(c.comment(&vec![s("ep"), s("nice")]).ok(), Some(("ep".to_string(), "nice".to_string())));
    assert!(c.comment(&vec![s("ep"), JsonValue::Null]).err() == Some(ArgError::ExpectedString));
    assert!(c.comment(&vec![JsonValue::Null]).err() == Some(ArgError::ExpectedString));
}

#[test]
fn new_episode_without_description() {
    let args = vec![s("pod"), s("title"), JsonValue::Array(vec![])];
    let r = new_episode_request(&args, sections()).ok().expect("accepted");
    assert_eq!(r.podcast_id, "pod");
    assert_eq!(r.title, "title");
    assert_eq!(r.description, None);
    assert_eq!(r.sections.len(), 1);
}

#[test]
fn new_episode_with_description() {
    let args = vec![s("pod"), s("title"), JsonValue::Array(vec![]), s("about")];
    let r = NewEpisode::new(()).request(&args, sections()).ok().expect("accepted");
    assert_eq!(r.description.as_deref(), Some("about"));
}

#[test]
fn new_episode_refusals_come_in_argument_order() {
    let bad_title = vec![s("pod"), JsonValue::Null, JsonValue::Null, JsonValue::Null];
    assert!(new_episode_request(&bad_title, Err(ArgError::InvalidSections)).err() == Some(ArgError::ExpectedString));
    let bad_sections = vec![s("pod"), s("t"), JsonValue::Null, JsonValue::Null];
    assert!(new_episode_request(&bad_sections, Err(ArgError::InvalidSections)).err() == Some(ArgError::InvalidSections));
    let bad_description = vec![s("pod"), s("t"), JsonValue::Array(vec![]), JsonValue::Number(JsonNumber::PosInt(1))];
    assert!(new_episode_request(&bad_description, sections()).err() == Some(ArgError::ExpectedString));
}

#[test]
fn update_episode_reads_every_argument() {
    let args = vec![s("ep"), s("t"), JsonValue::Array(vec![]), s("d")];
    let r = update_episode_request(&args, sections()).ok().expect("accepted");
    assert_eq!(r.id, "ep");
    assert_eq!(r.title, "t");
    assert_eq!(r.description.as_deref(), Some("d"));
    assert_eq!(r.sections.map(|v| v.len()), Some(1));
    let plugin_r = BotCastApiPlugin::new(std::sync::Arc::new(())).update_episode(&args, sections()).ok().expect("accepted");
    assert_eq!(plugin_r.id, "ep");
}

#[test]
fn update_episode_refuses_a_null_description() {
    let args = vec![s("ep"), s("t"), JsonValue::Array(vec![]), JsonValue::Null];
    assert!(update_episode_request(&args, sections()).err() == Some(ArgError::ExpectedString));
}

#[test]
fn update_episode_refuses_sections_that_do_not_decode() {
    let args = vec![s("ep"), s("t"), JsonValue::Null, s("d")];
    assert!(update_episode_request(&args, Err(ArgError::InvalidSections)).err() == Some(ArgError::InvalidSections));
}
