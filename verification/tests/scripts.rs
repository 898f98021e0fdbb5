use botcast::episode::{stored_manuscript, EpisodeError};
use botcast::script::{JsonNumber, JsonValue};
use botcast::scripts::{found_script, with_result, with_template, Script, ScriptError};

fn script() -> Script {
    Script { id: 1, user_id: 2, template: JsonValue::String("t".to_string()), result: None }
}

#[test]
fn a_missing_script_is_refused() {
    assert!(matches!(found_script(None), Err(ScriptError::NotFound)));
    assert!(matches!(found_script(Some(script())), Ok(Script { id: 1, .. })));
}

#[test]
fn evaluation_stores_the_result() {
    let s = with_result(script(), JsonValue::Number(JsonNumber::PosInt(3)));
    assert!(matches!(s.result, Some(JsonValue::Number(JsonNumber::PosInt(3)))));
    assert!(matches!(s.template, JsonValue::String(ref t) if t == "t"));
    let u = with_template(s, JsonValue::Null);
    assert!(matches!(u.template, JsonValue::Null));
    assert!(u.result.is_some());
    assert_eq!((u.id, u.user_id), (1, 2));
}

#[test]
fn audio_needs_a_stored_manuscript() {
    assert!(matches!(stored_manuscript(None), Err(EpisodeError::ManuscriptNotFound)));
    assert!(matches!(stored_manuscript(Some(JsonValue::Null)), Ok(JsonValue::Null)));
}
