use vstd::prelude::*;
use crate::registry::{FunctionTable, ScriptFunction};

verus! {

/// Binds the first script functions: `today`, `get`, `fetch` and `llm`.
pub fn define_imports<A>(table: &mut FunctionTable<A>)
    ensures
        final(table)@ == old(table)@.insert("today"@, ScriptFunction::ImportToday).insert(
            "get"@,
            ScriptFunction::ImportGet,
        ).insert("fetch"@, ScriptFunction::ImportFetch).insert("llm"@, ScriptFunction::ImportLlm),
{
    table.insert("today".to_owned(), ScriptFunction::ImportToday);
    table.insert("get".to_owned(), ScriptFunction::ImportGet);
    table.insert("fetch".to_owned(), ScriptFunction::ImportFetch);
    table.insert("llm".to_owned(), ScriptFunction::ImportLlm);
}

/// Binds `today`, `eval`, `fetch`, `fetch_json`, `text` and `jq`.
pub fn insert_custom_functions<A>(table: &mut FunctionTable<A>)
    ensures
        final(table)@ == old(table)@.insert("today"@, ScriptFunction::Today).insert("eval"@, ScriptFunction::Eval).insert(
            "fetch"@,
            ScriptFunction::FetchUrl,
        ).insert("fetch_json"@, ScriptFunction::FetchJson).insert("text"@, ScriptFunction::Text).insert(
            "jq"@,
            ScriptFunction::Jq,
        ),
{
    table.insert("today".to_owned(), ScriptFunction::Today);
    table.insert("eval".to_owned(), ScriptFunction::Eval);
    table.insert("fetch".to_owned(), ScriptFunction::FetchUrl);
    table.insert("fetch_json".to_owned(), ScriptFunction::FetchJson);
    table.insert("text".to_owned(), ScriptFunction::Text);
    table.insert("jq".to_owned(), ScriptFunction::Jq);
}

/// Binds `llm` and `llm_assistant` to the language-model calls, which carry
/// the API key and the assistant thread.
pub fn register_llm_functions<A>(table: &mut FunctionTable<A>, open_ai_api_key: String, thread_id: String)
    ensures
        final(table)@ == old(table)@.insert(
            "llm"@,
            ScriptFunction::ChatCompletion { api_key: open_ai_api_key },
        ).insert("llm_assistant"@, ScriptFunction::ChatAssistant { api_key: open_ai_api_key, thread_id }),
{
    table.insert("llm".to_owned(), ScriptFunction::ChatCompletion { api_key: open_ai_api_key.clone() });
    table.insert(
        "llm_assistant".to_owned(),
        ScriptFunction::ChatAssistant { api_key: open_ai_api_key, thread_id },
    );
}

} // verus!
