use botcast::error::RepoError;
use botcast::resolve::{index_set, resolved_value, set_field, urn_get_value, urn_lookup, RepoUrn, UrnLookup};
use botcast::script::{JsonNumber, JsonValue};

fn n(v: u64) -> JsonValue {
    JsonValue::Number(JsonNumber::PosInt(v))
}

fn keys(v: &JsonValue) -> Vec<String> {
    match v {
        JsonValue::Object(fs) => fs.iter().map(|(k, _)| k.clone()).collect(),
        _ => panic!("not an object"),
    }
}

fn field(v: &JsonValue, key: &str) -> Option<u64> {
    match v {
        JsonValue::Object(fs) => fs.iter().find(|(k, _)| k == key).and_then(|(_, v)| match v {
            JsonValue::Number(JsonNumber::PosInt(x)) => Some(*x),
            _ => None,
        }),
        _ => None,
    }
}

#[test]
fn set_field_replaces_or_appends() {
    let fs = vec![("a".to_string(), n(1)), ("b".to_string(), n(2))];
    let replaced = set_field(fs, "a".to_string(), n(9));
    assert_eq!(replaced.len(), 2);
    assert_eq!(replaced[0].0, "a");
    assert!(matches!(replaced[0].1, JsonValue::Number(JsonNumber::PosInt(9))));
    let appended = set_field(replaced, "c".to_string(), n(3));
    assert_eq!(appended.len(), 3);
    assert_eq!(appended[2].0, "c");
}

#[test]
fn index_set_on_null_makes_an_object() {
    let v = index_set(JsonValue::Null, "k".to_string(), n(1));
    assert_eq!(keys(&v), vec!["k"]);
}

#[test]
fn urn_lookup_refuses_other_resources() {
    assert!(matches!(urn_lookup(RepoUrn::Podcast("p".to_string())), Ok(UrnLookup::Podcast { id }) if id == "p"));
    assert!(matches!(urn_lookup(RepoUrn::Script("s".to_string())), Ok(UrnLookup::Script { id }) if id == "s"));
    match urn_lookup(RepoUrn::Other("voicevox".to_string(), "3".to_string())) {
        Err(RepoError::NotFound { resource, id }) => {
            assert_eq!(resource, "voicevox");
            assert_eq!(id, "3");
        }
        _ => panic!("an unknown resource was found"),
    }
}

#[test]
fn urn_get_value_attaches_related_records() {
    let podcast = JsonValue::Object(vec![("title".to_string(), n(1))]);
    let v = urn_get_value(&UrnLookup::Podcast { id: "p".to_string() }, podcast, n(7));
    assert_eq!(keys(&v), vec!["title", "episodes"]);
    assert_eq!(field(&v, "episodes"), Some(7));
    let episode = JsonValue::Object(vec![("comments".to_string(), n(0))]);
    let e = urn_get_value(&UrnLookup::Episode { id: "e".to_string() }, episode, n(5));
    assert_eq!(keys(&e), vec!["comments"]);
    assert_eq!(field(&e, "comments"), Some(5));
    let c = urn_get_value(&UrnLookup::Comment { id: "c".to_string() }, n(3), n(5));
    assert!(matches!(c, JsonValue::Number(JsonNumber::PosInt(3))));
}

#[test]
fn resolved_value_adds_comments_to_episodes_only() {
    let episode = JsonValue::Object(vec![("id".to_string(), n(1))]);
    let e = resolved_value(&UrnLookup::Episode { id: "e".to_string() }, episode, n(4));
    assert_eq!(field(&e, "comments"), Some(4));
    let podcast = JsonValue::Object(vec![("id".to_string(), n(1))]);
    let p = resolved_value(&UrnLookup::Podcast { id: "p".to_string() }, podcast, n(4));
    assert_eq!(keys(&p), vec!["id"]);
}

#[test]
fn setting_a_field_twice_is_setting_it_once() {
    let fs = vec![("a".to_string(), n(1))];
    let once = set_field(fs, "b".to_string(), n(2));
    let once_keys: Vec<String> = once.iter().map(|(k, _)| k.clone()).collect();
    let twice = set_field(once, "b".to_string(), n(2));
    let twice_keys: Vec<String> = twice.iter().map(|(k, _)| k.clone()).collect();
    assert_eq!(once_keys, twice_keys);
    assert_eq!(field(&JsonValue::Object(twice), "b"), Some(2));
}
