use botcast::imports::api::register_api_functions;
use botcast::imports::bindings::{define_imports, insert_custom_functions, register_llm_functions};
use botcast::imports::repo::register_repo_functions;
use botcast::plugins::botcast_api::BotCastApiPlugin;
use botcast::plugins::builtin::{default_plugins, install_plugin, runtime_functions, BuiltinPlugin};
use botcast::registry::{FunctionTable, ScriptFunction};
use std::sync::Arc;

fn bound(t: &FunctionTable<u32>, name: &str) -> Option<String> {
    t.get(&name.to_string()).map(|f| {
        let tag = match f {
            ScriptFunction::ImportToday => "ImportToday",
            ScriptFunction::ImportGet => "ImportGet",
            ScriptFunction::ImportFetch => "ImportFetch",
            ScriptFunction::ImportLlm => "ImportLlm",
            ScriptFunction::Today => "Today",
            ScriptFunction::Eval => "Eval",
            ScriptFunction::FetchUrl => "FetchUrl",
            ScriptFunction::Fetch => "Fetch",
            ScriptFunction::FetchJson => "FetchJson",
            ScriptFunction::Text => "Text",
            ScriptFunction::Jq => "Jq",
            ScriptFunction::Hq => "Hq",
            ScriptFunction::Replace => "Replace",
            ScriptFunction::UrnGet => "UrnGet",
            ScriptFunction::ChatCompletion { .. } => "ChatCompletion",
            ScriptFunction::ChatAssistant { .. } => "ChatAssistant",
            ScriptFunction::Llm => "Llm",
            ScriptFunction::LlmFunctionCalling => "LlmFunctionCalling",
            ScriptFunction::CreateThread => "CreateThread",
            ScriptFunction::DeleteThread => "DeleteThread",
            ScriptFunction::LlmAssistant => "LlmAssistant",
            ScriptFunction::Rss => "Rss",
            ScriptFunction::Rand => "Rand",
            ScriptFunction::Choice => "Choice",
            ScriptFunction::Me(_) => "Me",
            ScriptFunction::GetPodcast(_) => "GetPodcast",
            ScriptFunction::GetEpisode(_) => "GetEpisode",
            ScriptFunction::GetComment(_) => "GetComment",
            ScriptFunction::NewComment(_) => "NewComment",
            ScriptFunction::GetScript(_) => "GetScript",
            ScriptFunction::NewEpisode(_) => "NewEpisode",
            ScriptFunction::UpdateEpisode(_) => "UpdateEpisode",
            ScriptFunction::GetPodcastMails(_) => "GetPodcastMails",
        };
        tag.to_string()
    })
}

#[test]
fn a_new_table_binds_nothing() {
    let t = FunctionTable::<u32>::new();
    assert_eq!(bound(&t, "today"), None);
}

#[test]
fn binding_again_replaces_the_function() {
    let mut t = FunctionTable::<u32>::new();
    t.insert("f".to_string(), ScriptFunction::Rand);
    t.insert("g".to_string(), ScriptFunction::Choice);
    t.insert("f".to_string(), ScriptFunction::Jq);
    assert_eq!(bound(&t, "f").as_deref(), Some("Jq"));
    assert_eq!(bound(&t, "g").as_deref(), Some("Choice"));
    assert_eq!(bound(&t, "h"), None);
}

#[test]
fn first_imports_are_bound() {
    let mut t = FunctionTable::<u32>::new();
    define_imports(&mut t);
    assert_eq!(bound(&t, "today").as_deref(), Some("ImportToday"));
    assert_eq!(bound(&t, "get").as_deref(), Some("ImportGet"));
    assert_eq!(bound(&t, "fetch").as_deref(), Some("ImportFetch"));
    assert_eq!(bound(&t, "llm").as_deref(), Some("ImportLlm"));
}

#[test]
fn custom_functions_replace_earlier_bindings() {
    let mut t = FunctionTable::<u32>::new();
    define_imports(&mut t);
    insert_custom_functions(&mut t);
    assert_eq!(bound(&t, "today").as_deref(), Some("Today"));
    assert_eq!(bound(&t, "fetch").as_deref(), Some("FetchUrl"));
    assert_eq!(bound(&t, "get").as_deref(), Some("ImportGet"));
    assert_eq!(bound(&t, "jq").as_deref(), Some("Jq"));
    assert_eq!(bound(&t, "text").as_deref(), Some("Text"));
    assert_eq!(bound(&t, "eval").as_deref(), Some("Eval"));
    assert_eq!(bound(&t, "fetch_json").as_deref(), Some("FetchJson"));
}

#[test]
fn llm_functions_carry_key_and_thread() {
    let mut t = FunctionTable::<u32>::new();
    register_llm_functions(&mut t, "key".to_string(), "thread".to_string());
    match t.get(&"llm_assistant".to_string()) {
        Some(ScriptFunction::ChatAssistant { api_key, thread_id }) => {
            assert_eq!(api_key, "key");
            assert_eq!(thread_id, "thread");
        }
        _ => panic!("llm_assistant is not bound to the assistant"),
    }
    assert!(matches!(t.get(&"llm".to_string()), Some(ScriptFunction::ChatCompletion { api_key }) if api_key == "key"));
}

#[test]
fn api_and_repo_functions_are_bound() {
    let mut t = FunctionTable::<u32>::new();
    register_repo_functions(&mut t, Arc::new(5u32));
    assert_eq!(bound(&t, "get_comment").as_deref(), Some("GetComment"));
    assert_eq!(bound(&t, "new_comment"), None);
    register_api_functions(&mut t, Arc::new(6u32));
    assert!(matches!(t.get(&"get_comment".to_string()), Some(ScriptFunction::GetComment(c)) if **c == 6));
    assert_eq!(bound(&t, "new_comment").as_deref(), Some("NewComment"));
    assert_eq!(bound(&t, "new_episode").as_deref(), Some("NewEpisode"));
}

#[test]
fn api_plugin_binds_its_functions() {
    let client = Arc::new(42u32);
    let plugin = BotCastApiPlugin::new(client.clone());
    assert!(Arc::ptr_eq(plugin.client(), &client));
    let mut t = FunctionTable::<u32>::new();
    plugin.register_functions(&mut t);
    for (name, tag) in [
        ("me", "Me"),
        ("get_podcast", "GetPodcast"),
        ("get_episode", "GetEpisode"),
        ("get_script", "GetScript"),
        ("new_episode", "NewEpisode"),
        ("update_episode", "UpdateEpisode"),
        ("get_podcast_mails", "GetPodcastMails"),
    ] {
        assert_eq!(bound(&t, name).as_deref(), Some(tag));
    }
    assert_eq!(bound(&t, "get_comment"), None);
    match t.get(&"update_episode".to_string()) {
        Some(ScriptFunction::UpdateEpisode(c)) => assert!(Arc::ptr_eq(c, &client)),
        _ => panic!("update_episode is not bound to the plugin's client"),
    }
}

#[test]
fn installing_a_plugin_twice_changes_nothing() {
    let mut once = FunctionTable::<u32>::new();
    install_plugin(&mut once, BuiltinPlugin::Llm);
    let mut twice = FunctionTable::<u32>::new();
    install_plugin(&mut twice, BuiltinPlugin::Llm);
    install_plugin(&mut twice, BuiltinPlugin::Llm);
    for name in ["llm", "llm_function_calling", "create_thread", "delete_thread", "llm_assistant", "rand"] {
        assert_eq!(bound(&once, name), bound(&twice, name));
    }
}

#[test]
fn default_runtime_binds_every_plugin() {
    let plugins = default_plugins();
    assert_eq!(plugins.len(), 7);
    let t: FunctionTable<u32> = runtime_functions(&plugins);
    for (name, tag) in [
        ("text", "Text"),
        ("jq", "Jq"),
        ("hq", "Hq"),
        ("replace", "Replace"),
        ("rss", "Rss"),
        ("today", "Today"),
        ("fetch", "Fetch"),
        ("fetch_json", "FetchJson"),
        ("llm", "Llm"),
        ("llm_function_calling", "LlmFunctionCalling"),
        ("create_thread", "CreateThread"),
        ("delete_thread", "DeleteThread"),
        ("llm_assistant", "LlmAssistant"),
        ("rand", "Rand"),
        ("choice", "Choice"),
    ] {
        assert_eq!(bound(&t, name).as_deref(), Some(tag));
    }
    assert_eq!(bound(&t, "get"), None);
}
