use botcast::script::{
    as_array, as_string, as_u64, choice_call, eval_arguments, fetch_url_argument, hq_call, id_argument,
    import_fetch, import_get, import_llm, import_today, jq_arguments, leading_strings, rand_call,
    replace, replace_call, today, ArgError, Imports, JsonNumber, JsonValue,
};
use botcast::urn::Urn;

fn s(text: &str) -> JsonValue {
    JsonValue::String(text.to_string())
}

fn n(v: u64) -> JsonValue {
    JsonValue::Number(JsonNumber::PosInt(v))
}

fn string_of(v: Result<JsonValue, ArgError>) -> Option<String> {
    match v {
        Ok(JsonValue::String(t)) => Some(t),
        _ => None,
    }
}

#[test]
fn as_string_reads_strings_only() {
    assert_eq!(as_string(&s("x")).ok(), Some("x".to_string()));
    assert!(as_string(&n(1)).err() == Some(ArgError::ExpectedString));
    assert!(as_string(&JsonValue::Null).err() == Some(ArgError::ExpectedString));
}

#[test]
fn as_u64_reads_non_negative_integers_only() {
    assert_eq!(as_u64(&n(7)).ok(), Some(7));
    assert!(as_u64(&JsonValue::Number(JsonNumber::NegInt(-1))).err() == Some(ArgError::ExpectedUnsigned));
    assert!(as_u64(&JsonValue::Number(JsonNumber::Float(3.0f64.to_bits()))).err() == Some(ArgError::ExpectedUnsigned));
    assert!(as_u64(&s("7")).err() == Some(ArgError::ExpectedUnsigned));
}

#[test]
fn as_array_reads_arrays_only() {
    let a = JsonValue::Array(vec![n(1), n(2)]);
    assert_eq!(as_array(&a).map(|v| v.len()).ok(), Some(2));
    assert!(as_array(&n(1)).err() == Some(ArgError::ExpectedArray));
}

#[test]
fn imports_answer_with_placeholders() {
    assert_eq!(Imports.get(Urn("urn:podcast:1".to_string())), "urn:podcast:1");
    assert_eq!(Imports.fetch("https://example.com".to_string()), "https://example.com");
    assert_eq!(Imports.llm("hello".to_string()), "llm");
}

#[test]
fn imports_today_writes_the_date() {
    let year = Imports.today("%Y".to_string()).expect("a plain format");
    assert_eq!(year.len(), 4);
    assert!(year.chars().all(|c| c.is_ascii_digit()));
}

#[test]
fn first_functions_take_exactly_one_string() {
    assert_eq!(string_of(import_get(&vec![s("urn:a:b")])), Some("urn:a:b".to_string()));
    assert_eq!(string_of(import_fetch(&vec![s("u")])), Some("u".to_string()));
    assert_eq!(string_of(import_llm(&vec![s("p")])), Some("llm".to_string()));
    assert_eq!(string_of(import_today(&vec![s("%Y")])).map(|y| y.len()), Some(4));
    assert!(import_get(&vec![]).err() == Some(ArgError::GetNeedsString));
    assert!(import_fetch(&vec![s("a"), s("b")]).err() == Some(ArgError::FetchNeedsString));
    assert!(import_llm(&vec![n(1)]).err() == Some(ArgError::LlmNeedsString));
    assert!(import_today(&vec![JsonValue::Null]).err() == Some(ArgError::TodayNeedsString));
    assert!(fetch_url_argument(&vec![s("a"), s("b")]).err() == Some(ArgError::InvalidArgs));
    assert_eq!(fetch_url_argument(&vec![s("https://a")]).ok(), Some("https://a".to_string()));
}

#[test]
fn today_needs_a_string_format() {
    assert!(today(&vec![n(1)]).err() == Some(ArgError::ExpectedString));
    let d = today(&vec![s("%Y/%m/%d")]).ok().expect("a plain format");
    assert_eq!(d.len(), 10);
    assert_eq!(&d[4..5], "/");
}

#[test]
fn id_argument_reads_the_first_argument() {
    assert_eq!(id_argument(&vec![s("id-1"), n(3)]).ok(), Some("id-1".to_string()));
    assert!(id_argument(&vec![n(3)]).err() == Some(ArgError::ExpectedString));
}

#[test]
fn leading_strings_stop_at_the_first_non_string() {
    assert_eq!(leading_strings(&vec![s("a"), s("b"), n(1)], 2).ok(), Some(vec!["a".to_string(), "b".to_string()]));
    assert!(leading_strings(&vec![s("a"), n(1), s("c")], 3).err() == Some(ArgError::ExpectedString));
    assert!(leading_strings(&vec![n(1)], 3).err() == Some(ArgError::ExpectedString));
}

#[test]
fn replace_matches_str_replace() {
    for (t, p, w) in [
        ("hello world", "o", "0"),
        ("aaaa", "aa", "b"),
        ("abc", "", "-"),
        ("", "", "x"),
        ("", "a", "x"),
        ("こんにちは", "にち", "ばん"),
        ("abc", "abcd", "x"),
    ] {
        assert_eq!(replace(t, p, w), t.replace(p, w));
    }
}

#[test]
fn replace_call_reads_three_strings() {
    assert_eq!(replace_call(&vec![s("a-b-c"), s("-"), s("+")]).ok(), Some("a+b+c".to_string()));
    assert!(replace_call(&vec![s("a"), n(1), s("c")]).err() == Some(ArgError::ExpectedString));
}

#[test]
fn rand_call_stays_in_range() {
    for _ in 0..50 {
        let r = rand_call(&vec![n(3), n(6)]).ok().expect("a range");
        assert!((3..6).contains(&r));
    }
    assert!(rand_call(&vec![s("3"), n(6)]).err() == Some(ArgError::ExpectedUnsigned));
    assert!(rand_call(&vec![n(3), s("6")]).err() == Some(ArgError::ExpectedUnsigned));
    assert!(rand_call(&vec![s("3")]).err() == Some(ArgError::ExpectedUnsigned));
}

#[test]
fn choice_call_picks_an_element() {
    let a = vec![JsonValue::Array(vec![n(1), n(2), n(3)])];
    for _ in 0..20 {
        match choice_call(&a) {
            Ok(JsonValue::Number(JsonNumber::PosInt(v))) => assert!((1..=3).contains(v)),
            _ => panic!("expected one of the numbers"),
        }
    }
    assert!(choice_call(&vec![n(1)]).err() == Some(ArgError::ExpectedArray));
}

#[test]
fn eval_arguments_need_a_template_and_an_object() {
    let args = vec![s("${a}"), JsonValue::Object(vec![("a".to_string(), n(1))])];
    match eval_arguments(&args) {
        Ok((JsonValue::String(t), values)) => {
            assert_eq!(t, "${a}");
            assert_eq!(values.len(), 1);
        }
        _ => panic!("expected the template and the values"),
    }
    assert!(eval_arguments(&vec![s("t"), n(1)]).err() == Some(ArgError::InvalidArgs));
    assert!(eval_arguments(&vec![s("t")]).err() == Some(ArgError::InvalidArgs));
}

#[test]
fn hq_call_returns_inner_html_of_first_match() {
    let html = "<div><p class=\"x\">first <b>one</b></p><p class=\"x\">second</p></div>";
    assert_eq!(hq_call(&vec![s(html), s("p.x")]).ok(), Some("first <b>one</b>".to_string()));
    assert!(hq_call(&vec![s(html), s("span")]).err() == Some(ArgError::QueryFailed));
    assert!(hq_call(&vec![n(1), s("p")]).err() == Some(ArgError::ExpectedString));
}

#[test]
fn jq_arguments_take_value_and_query() {
    let args = vec![n(5), s(".a")];
    match jq_arguments(&args) {
        Ok((JsonValue::Number(JsonNumber::PosInt(5)), q)) => assert_eq!(q, ".a"),
        _ => panic!("expected the value and the query"),
    }
    assert!(jq_arguments(&vec![n(5), n(6)]).err() == Some(ArgError::ExpectedString));
}

#[test]
fn time_test_call_today() {
    let result = today(&vec![s("%Y/%m/%d")]).ok();
    let expected = chrono::Local::now().format("%Y/%m/%d").to_string();
    assert_eq!(result, Some(expected));
}

#[test]
fn imports_today_writes_a_literal_format_as_it_is() {
    assert_eq!(Imports.today("day 100%% done%n%tok".to_string()), Some("day 100% done\n\tok".to_string()));
    assert_eq!(Imports.today(String::new()), Some(String::new()));
}

#[test]
fn a_literal_format_is_written_as_it_is() {
    assert_eq!(today(&vec![s("at 100%%")]).ok(), Some("at 100%".to_string()));
    assert_eq!(string_of(import_today(&vec![s("day%nnight")])), Some("day\nnight".to_string()));
}

#[test]
fn simple_and_invalid_formats() {
    assert!(today(&vec![s("%Y-%m-%d %H:%M:%S %a %b")]).is_ok());
    assert!(today(&vec![s("%Q")]).err() == Some(ArgError::InvalidDateFormat));
    assert!(today(&vec![s("trailing %")]).err() == Some(ArgError::InvalidDateFormat));
    assert!(Imports.today("%E".to_string()).is_none());
}
