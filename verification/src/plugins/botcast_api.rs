use vstd::prelude::*;
use crate::manuscript::Section;
use crate::registry::{share, FunctionTable, ScriptFunction};
use std::sync::Arc;
use crate::requests::{
    new_episode_request, new_episode_request_is, update_episode_request, update_episode_request_is,
    NewEpisodeRequest, UpdateEpisodeRequest,
};
use crate::script::{
    id_argument, reads_in_bounds, spec_as_string, string_result, strings_prefix, ArgError, JsonValue,
};

verus! {

/// The bindings the botcast API plugin adds to `t`, in the order it adds
/// them, each function answering through `client`.
pub open spec fn api_plugin_bindings<C>(t: Map<Seq<char>, ScriptFunction<C>>, client: Arc<C>) -> Map<
    Seq<char>,
    ScriptFunction<C>,
> {
    t.insert("me"@, ScriptFunction::Me(client)).insert("get_podcast"@, ScriptFunction::GetPodcast(client)).insert("get_episode"@, ScriptFunction::GetEpisode(client)).insert("get_script"@, ScriptFunction::GetScript(client)).insert("new_episode"@, ScriptFunction::NewEpisode(client)).insert("update_episode"@, ScriptFunction::UpdateEpisode(client)).insert("get_podcast_mails"@, ScriptFunction::GetPodcastMails(client))
}

/// The script functions backed by the botcast API: `me`, `get_podcast`,
/// `get_episode`, `get_script`, `new_episode`, `update_episode` and
/// `get_podcast_mails`, all answered through one API client.
pub struct BotCastApiPlugin<C> {
    client: Arc<C>,
}

impl<C> BotCastApiPlugin<C> {
    /// The API client the functions ask.
    pub closed spec fn api(&self) -> Arc<C> {
        self.client
    }

    pub fn new(client: Arc<C>) -> (r: Self)
        ensures
            r.api() == client,
    {
        BotCastApiPlugin { client }
    }

    pub fn client(&self) -> (c: &Arc<C>)
        ensures
            *c == self.api(),
    {
        &self.client
    }

    /// Binds the plugin's functions, each answering through the plugin's client.
    pub fn register_functions(&self, table: &mut FunctionTable<C>)
        ensures
            final(table)@ == api_plugin_bindings(old(table)@, self.api()),
    {
        table.insert("me".to_owned(), ScriptFunction::Me(share(&self.client)));
        table.insert("get_podcast".to_owned(), ScriptFunction::GetPodcast(share(&self.client)));
        table.insert("get_episode".to_owned(), ScriptFunction::GetEpisode(share(&self.client)));
        table.insert("get_script".to_owned(), ScriptFunction::GetScript(share(&self.client)));
        table.insert("new_episode".to_owned(), ScriptFunction::NewEpisode(share(&self.client)));
        table.insert("update_episode".to_owned(), ScriptFunction::UpdateEpisode(share(&self.client)));
        table.insert("get_podcast_mails".to_owned(), ScriptFunction::GetPodcastMails(share(&self.client)));
    }

    /// The id that `get_podcast`, `get_episode`, `get_script` or
    /// `get_podcast_mails` looks up: the first evaluated argument, a string.
    pub fn lookup_id(&self, evaluated: &Vec<JsonValue>) -> (r: Result<String, ArgError>)
        requires
            evaluated@.len() >= 1,
        ensures
            string_result(r, spec_as_string(evaluated@[0]), ArgError::ExpectedString),
    {
        id_argument(evaluated)
    }

    /// The request of `new_episode`.
    pub fn new_episode(&self, evaluated: &Vec<JsonValue>, sections: Result<Vec<Section>, ArgError>) -> (r: Result<
        NewEpisodeRequest,
        ArgError,
    >)
        requires
            reads_in_bounds(evaluated@, 3),
        ensures
            new_episode_request_is(evaluated@, sections, r),
    {
        new_episode_request(evaluated, sections)
    }

    /// The request of `update_episode`.
    pub fn update_episode(&self, evaluated: &Vec<JsonValue>, sections: Result<Vec<Section>, ArgError>) -> (r: Result<
        UpdateEpisodeRequest,
        ArgError,
    >)
        requires
            reads_in_bounds(evaluated@, 3),
            evaluated@.len() >= 4 || strings_prefix(evaluated@, 2) is None || sections is Err,
        ensures
            update_episode_request_is(evaluated@, sections, r),
    {
        update_episode_request(evaluated, sections)
    }
}

/// Installing the API plugin a second time changes nothing.
pub proof fn law_api_plugin_install_idempotent<C>(t: Map<Seq<char>, ScriptFunction<C>>, client: Arc<C>)
    ensures
        api_plugin_bindings(api_plugin_bindings(t, client), client) == api_plugin_bindings(t, client),
{
    assert(api_plugin_bindings(api_plugin_bindings(t, client), client) =~= api_plugin_bindings(t, client));
}

} // verus!
