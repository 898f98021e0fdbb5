use vstd::prelude::*;
use crate::registry::{share, FunctionTable, ScriptFunction};
use std::sync::Arc;
use crate::script::{id_argument, spec_as_string, string_result, ArgError, JsonValue};

verus! {

/// `get_podcast(id)`: a podcast, looked up through the API client.
pub struct GetPodcast<C> {
    client: C,
}

impl<C> GetPodcast<C> {
    /// The API client the function asks.
    pub closed spec fn api(&self) -> C {
        self.client
    }

    pub fn new(client: C) -> (r: Self)
        ensures
            r.api() == client,
    {
        GetPodcast { client }
    }

    pub fn client(&self) -> (c: &C)
        ensures
            *c == self.api(),
    {
        &self.client
    }

    /// The podcast id asked for: the first evaluated argument, a string.
    pub fn podcast_id(&self, evaluated: &Vec<JsonValue>) -> (r: Result<String, ArgError>)
        requires
            evaluated@.len() >= 1,
        ensures
            string_result(r, spec_as_string(evaluated@[0]), ArgError::ExpectedString),
    {
        id_argument(evaluated)
    }
}

/// `get_episode(id)`: an episode, looked up through the API client.
pub struct GetEpisode<C> {
    client: C,
}

impl<C> GetEpisode<C> {
    /// The API client the function asks.
    pub closed spec fn api(&self) -> C {
        self.client
    }

    pub fn new(client: C) -> (r: Self)
        ensures
            r.api() == client,
    {
        GetEpisode { client }
    }

    pub fn client(&self) -> (c: &C)
        ensures
            *c == self.api(),
    {
        &self.client
    }

    /// The episode id asked for: the first evaluated argument, a string.
    pub fn episode_id(&self, evaluated: &Vec<JsonValue>) -> (r: Result<String, ArgError>)
        requires
            evaluated@.len() >= 1,
        ensures
            string_result(r, spec_as_string(evaluated@[0]), ArgError::ExpectedString),
    {
        id_argument(evaluated)
    }
}

/// `get_comment(id)`: a comment, looked up through the API client.
pub struct GetComment<C> {
    client: C,
}

impl<C> GetComment<C> {
    /// The API client the function asks.
    pub closed spec fn api(&self) -> C {
        self.client
    }

    pub fn new(client: C) -> (r: Self)
        ensures
            r.api() == client,
    {
        GetComment { client }
    }

    pub fn client(&self) -> (c: &C)
        ensures
            *c == self.api(),
    {
        &self.client
    }

    /// The comment id asked for: the first evaluated argument, a string.
    pub fn comment_id(&self, evaluated: &Vec<JsonValue>) -> (r: Result<String, ArgError>)
        requires
            evaluated@.len() >= 1,
        ensures
            string_result(r, spec_as_string(evaluated@[0]), ArgError::ExpectedString),
    {
        id_argument(evaluated)
    }
}

/// `get_script(id)`: a script, looked up through the API client.
pub struct GetScript<C> {
    client: C,
}

impl<C> GetScript<C> {
    /// The API client the function asks.
    pub closed spec fn api(&self) -> C {
        self.client
    }

    pub fn new(client: C) -> (r: Self)
        ensures
            r.api() == client,
    {
        GetScript { client }
    }

    pub fn client(&self) -> (c: &C)
        ensures
            *c == self.api(),
    {
        &self.client
    }

    /// The script id asked for: the first evaluated argument, a string.
    pub fn script_id(&self, evaluated: &Vec<JsonValue>) -> (r: Result<String, ArgError>)
        requires
            evaluated@.len() >= 1,
        ensures
            string_result(r, spec_as_string(evaluated@[0]), ArgError::ExpectedString),
    {
        id_argument(evaluated)
    }
}

/// Binds the lookups `get_podcast`, `get_episode`, `get_comment` and
/// `get_script`, each answering through the given client.
pub fn register_repo_functions<A>(table: &mut FunctionTable<A>, client: Arc<A>)
    ensures
        final(table)@ == old(table)@.insert("get_podcast"@, ScriptFunction::GetPodcast(client)).insert("get_episode"@, ScriptFunction::GetEpisode(client)).insert("get_comment"@, ScriptFunction::GetComment(client)).insert("get_script"@, ScriptFunction::GetScript(client)),
{
    table.insert("get_podcast".to_owned(), ScriptFunction::GetPodcast(share(&client)));
    table.insert("get_episode".to_owned(), ScriptFunction::GetEpisode(share(&client)));
    table.insert("get_comment".to_owned(), ScriptFunction::GetComment(share(&client)));
    table.insert("get_script".to_owned(), ScriptFunction::GetScript(client));
}

} // verus!
