use vstd::prelude::*;
use crate::registry::{FunctionTable, ScriptFunction};

verus! {

/// The plugins every script runtime starts with.
#[derive(PartialEq, Eq, Structural, Clone, Copy)]
pub enum BuiltinPlugin {
    /// `text`
    Html,
    /// `jq`, `hq`, `replace`
    Json,
    /// `rss`
    Rss,
    /// `today`
    Time,
    /// `fetch`, `fetch_json`
    Fetch,
    /// `llm`, `llm_function_calling`, `create_thread`, `delete_thread`, `llm_assistant`
    Llm,
    /// `rand`, `choice`
    Rand,
}

/// The bindings a plugin adds to `t`, in the order it adds them.
pub open spec fn plugin_bindings<A>(p: BuiltinPlugin, t: Map<Seq<char>, ScriptFunction<A>>) -> Map<Seq<char>, ScriptFunction<A>> {
    match p {
        BuiltinPlugin::Html => t.insert("text"@, ScriptFunction::Text),
        BuiltinPlugin::Json => t.insert("jq"@, ScriptFunction::Jq).insert("hq"@, ScriptFunction::Hq).insert(
            "replace"@,
            ScriptFunction::Replace,
        ),
        BuiltinPlugin::Rss => t.insert("rss"@, ScriptFunction::Rss),
        BuiltinPlugin::Time => t.insert("today"@, ScriptFunction::Today),
        BuiltinPlugin::Fetch => t.insert("fetch"@, ScriptFunction::Fetch).insert("fetch_json"@, ScriptFunction::FetchJson),
        BuiltinPlugin::Llm => t.insert("llm"@, ScriptFunction::Llm).insert(
            "llm_function_calling"@,
            ScriptFunction::LlmFunctionCalling,
        ).insert("create_thread"@, ScriptFunction::CreateThread).insert("delete_thread"@, ScriptFunction::DeleteThread).insert(
            "llm_assistant"@,
            ScriptFunction::LlmAssistant,
        ),
        BuiltinPlugin::Rand => t.insert("rand"@, ScriptFunction::Rand).insert("choice"@, ScriptFunction::Choice),
    }
}

/// The bindings of the plugins installed one after the other on `t`.
pub open spec fn plugins_bindings<A>(ps: Seq<BuiltinPlugin>, t: Map<Seq<char>, ScriptFunction<A>>) -> Map<Seq<char>, ScriptFunction<A>>
    decreases ps.len(),
{
    if ps.len() == 0 {
        t
    } else {
        plugin_bindings(ps.last(), plugins_bindings(ps.drop_last(), t))
    }
}

/// Binds the functions of one plugin.
pub fn install_plugin<A>(table: &mut FunctionTable<A>, plugin: BuiltinPlugin)
    ensures
        final(table)@ == plugin_bindings(plugin, old(table)@),
{
    match plugin {
        BuiltinPlugin::Html => {
            table.insert("text".to_owned(), ScriptFunction::Text);
        },
        BuiltinPlugin::Json => {
            table.insert("jq".to_owned(), ScriptFunction::Jq);
            table.insert("hq".to_owned(), ScriptFunction::Hq);
            table.insert("replace".to_owned(), ScriptFunction::Replace);
        },
        BuiltinPlugin::Rss => {
            table.insert("rss".to_owned(), ScriptFunction::Rss);
        },
        BuiltinPlugin::Time => {
            table.insert("today".to_owned(), ScriptFunction::Today);
        },
        BuiltinPlugin::Fetch => {
            table.insert("fetch".to_owned(), ScriptFunction::Fetch);
            table.insert("fetch_json".to_owned(), ScriptFunction::FetchJson);
        },
        BuiltinPlugin::Llm => {
            table.insert("llm".to_owned(), ScriptFunction::Llm);
            table.insert("llm_function_calling".to_owned(), ScriptFunction::LlmFunctionCalling);
            table.insert("create_thread".to_owned(), ScriptFunction::CreateThread);
            table.insert("delete_thread".to_owned(), ScriptFunction::DeleteThread);
            table.insert("llm_assistant".to_owned(), ScriptFunction::LlmAssistant);
        },
        BuiltinPlugin::Rand => {
            table.insert("rand".to_owned(), ScriptFunction::Rand);
            table.insert("choice".to_owned(), ScriptFunction::Choice);
        },
    }
}

/// The plugins a default runtime installs, in order.
pub open spec fn spec_default_plugins() -> Seq<BuiltinPlugin> {
    seq![
        BuiltinPlugin::Html,
        BuiltinPlugin::Json,
        BuiltinPlugin::Rss,
        BuiltinPlugin::Time,
        BuiltinPlugin::Fetch,
        BuiltinPlugin::Llm,
        BuiltinPlugin::Rand,
    ]
}

pub fn default_plugins() -> (ps: Vec<BuiltinPlugin>)
    ensures
        ps@ == spec_default_plugins(),
{
    let ps = vec![
        BuiltinPlugin::Html,
        BuiltinPlugin::Json,
        BuiltinPlugin::Rss,
        BuiltinPlugin::Time,
        BuiltinPlugin::Fetch,
        BuiltinPlugin::Llm,
        BuiltinPlugin::Rand,
    ];
    assert(ps@ =~= spec_default_plugins());
    ps
}

/// The functions of a runtime made with these plugins: each installed in turn
/// on an empty table.
pub fn runtime_functions<A>(plugins: &Vec<BuiltinPlugin>) -> (t: FunctionTable<A>)
    ensures
        t@ == plugins_bindings::<A>(plugins@, Map::empty()),
{
    let mut table = FunctionTable::new();
    let mut i: usize = 0;
    while i < plugins.len()
        invariant
            i <= plugins@.len(),
            table@ == plugins_bindings::<A>(plugins@.take(i as int), Map::empty()),
        decreases plugins@.len() - i,
    {
        install_plugin(&mut table, plugins[i]);
        proof {
            assert(plugins@.take(i + 1).drop_last() =~= plugins@.take(i as int));
        }
        i += 1;
    }
    proof {
        assert(plugins@.take(i as int) =~= plugins@);
    }
    table
}

/// Installing a plugin a second time changes nothing.
pub proof fn law_plugin_install_idempotent<A>(p: BuiltinPlugin, t: Map<Seq<char>, ScriptFunction<A>>)
    ensures
        plugin_bindings(p, plugin_bindings(p, t)) == plugin_bindings(p, t),
{
    assert(plugin_bindings(p, plugin_bindings(p, t)) =~= plugin_bindings(p, t));
}

} // verus!
