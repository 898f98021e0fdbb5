use vstd::prelude::*;
use crate::registry::{share, FunctionTable, ScriptFunction};
use std::sync::Arc;
use crate::manuscript::Section;
use crate::requests::{new_episode_request, new_episode_request_is, NewEpisodeRequest};
use crate::script::{id_argument, spec_as_string, string_result, ArgError, JsonValue, leading_strings, reads_in_bounds, strings_prefix};

verus! {

/// `get_podcast(id)`: a podcast, looked up through the API client.
pub struct GetPodcast<C> {
    client: C,
}

impl<C> GetPodcast<C> {
    /// The API client the function asks.
    pub closed spec fn api(&self) -> C {
        self.client
    }

    pub fn new(client: C) -> (r: Self)
        ensures
            r.api() == client,
    {
        GetPodcast { client }
    }

    pub fn client(&self) -> (c: &C)
        ensures
            *c == self.api(),
    {
        &self.client
    }

    /// The podcast id asked for: the first evaluated argument, a string.
    pub fn podcast_id(&self, evaluated: &Vec<JsonValue>) -> (r: Result<String, ArgError>)
        requires
            evaluated@.len() >= 1,
        ensures
            string_result(r, spec_as_string(evaluated@[0]), ArgError::ExpectedString),
    {
        id_argument(evaluated)
    }
}

/// `get_episode(id)`: an episode, looked up through the API client.
pub struct GetEpisode<C> {
    client: C,
}

impl<C> GetEpisode<C> {
    /// The API client the function asks.
    pub closed spec fn api(&self) -> C {
        self.client
    }

    pub fn new(client: C) -> (r: Self)
        ensures
            r.api() == client,
    {
        GetEpisode { client }
    }

    pub fn client(&self) -> (c: &C)
        ensures
            *c == self.api(),
    {
        &self.client
    }

    /// The episode id asked for: the first evaluated argument, a string.
    pub fn episode_id(&self, evaluated: &Vec<JsonValue>) -> (r: Result<String, ArgError>)
        requires
            evaluated@.len() >= 1,
        ensures
            string_result(r, spec_as_string(evaluated@[0]), ArgError::ExpectedString),
    {
        id_argument(evaluated)
    }
}

/// `get_comment(id)`: a comment, looked up through the API client.
pub struct GetComment<C> {
    client: C,
}

impl<C> GetComment<C> {
    /// The API client the function asks.
    pub closed spec fn api(&self) -> C {
        self.client
    }

    pub fn new(client: C) -> (r: Self)
        ensures
            r.api() == client,
    {
        GetComment { client }
    }

    pub fn client(&self) -> (c: &C)
        ensures
            *c == self.api(),
    {
        &self.client
    }

    /// The comment id asked for: the first evaluated argument, a string.
    pub fn comment_id(&self, evaluated: &Vec<JsonValue>) -> (r: Result<String, ArgError>)
        requires
            evaluated@.len() >= 1,
        ensures
            string_result(r, spec_as_string(evaluated@[0]), ArgError::ExpectedString),
    {
        id_argument(evaluated)
    }
}

/// `new_comment(episode_id, content)`: posts a comment through the API client.
pub struct NewComment<C> {
    client: C,
}

impl<C> NewComment<C> {
    /// The API client the function asks.
    pub closed spec fn api(&self) -> C {
        self.client
    }

    pub fn new(client: C) -> (r: Self)
        ensures
            r.api() == client,
    {
        NewComment { client }
    }

    pub fn client(&self) -> (c: &C)
        ensures
            *c == self.api(),
    {
        &self.client
    }

    /// The episode id and the content of the comment: the first two
    /// evaluated arguments, strings, read in that order.
    pub fn comment(&self, evaluated: &Vec<JsonValue>) -> (r: Result<(String, String), ArgError>)
        requires
            reads_in_bounds(evaluated@, 2),
        ensures
            match strings_prefix(evaluated@, 2) {
                Some(ss) => r matches Ok((e, c)) && e@ == ss[0] && c@ == ss[1],
                None => r == Err::<(String, String), ArgError>(ArgError::ExpectedString),
            },
    {
        let v = leading_strings(evaluated, 2)?;
        proof {
            assert(v@.map_values(|s: String| s@)[0] == v@[0]@);
            assert(v@.map_values(|s: String| s@)[1] == v@[1]@);
        }
        Ok((v[0].clone(), v[1].clone()))
    }
}

/// `get_script(id)`: a script, looked up through the API client.
pub struct GetScript<C> {
    client: C,
}

impl<C> GetScript<C> {
    /// The API client the function asks.
    pub closed spec fn api(&self) -> C {
        self.client
    }

    pub fn new(client: C) -> (r: Self)
        ensures
            r.api() == client,
    {
        GetScript { client }
    }

    pub fn client(&self) -> (c: &C)
        ensures
            *c == self.api(),
    {
        &self.client
    }

    /// The script id asked for: the first evaluated argument, a string.
    pub fn script_id(&self, evaluated: &Vec<JsonValue>) -> (r: Result<String, ArgError>)
        requires
            evaluated@.len() >= 1,
        ensures
            string_result(r, spec_as_string(evaluated@[0]), ArgError::ExpectedString),
    {
        id_argument(evaluated)
    }
}

/// `new_episode(podcast_id, title, sections, description?)`: creates an
/// episode through the API client.
pub struct NewEpisode<C> {
    client: C,
}

impl<C> NewEpisode<C> {
    /// The API client the function asks.
    pub closed spec fn api(&self) -> C {
        self.client
    }

    pub fn new(client: C) -> (r: Self)
        ensures
            r.api() == client,
    {
        NewEpisode { client }
    }

    pub fn client(&self) -> (c: &C)
        ensures
            *c == self.api(),
    {
        &self.client
    }

    /// The request made of the evaluated arguments, as
    /// [`new_episode_request`] builds it.
    pub fn request(&self, evaluated: &Vec<JsonValue>, sections: Result<Vec<Section>, ArgError>) -> (r: Result<
        NewEpisodeRequest,
        ArgError,
    >)
        requires
            reads_in_bounds(evaluated@, 3),
        ensures
            new_episode_request_is(evaluated@, sections, r),
    {
        new_episode_request(evaluated, sections)
    }
}

/// Binds the API functions `get_podcast`, `get_episode`, `get_comment`,
/// `new_comment`, `get_script` and `new_episode`, each answering through the
/// given client.
pub fn register_api_functions<A>(table: &mut FunctionTable<A>, client: Arc<A>)
    ensures
        final(table)@ == old(table)@.insert("get_podcast"@, ScriptFunction::GetPodcast(client)).insert("get_episode"@, ScriptFunction::GetEpisode(client)).insert("get_comment"@, ScriptFunction::GetComment(client)).insert("new_comment"@, ScriptFunction::NewComment(client)).insert("get_script"@, ScriptFunction::GetScript(client)).insert("new_episode"@, ScriptFunction::NewEpisode(client)),
{
    table.insert("get_podcast".to_owned(), ScriptFunction::GetPodcast(share(&client)));
    table.insert("get_episode".to_owned(), ScriptFunction::GetEpisode(share(&client)));
    table.insert("get_comment".to_owned(), ScriptFunction::GetComment(share(&client)));
    table.insert("new_comment".to_owned(), ScriptFunction::NewComment(share(&client)));
    table.insert("get_script".to_owned(), ScriptFunction::GetScript(share(&client)));
    table.insert("new_episode".to_owned(), ScriptFunction::NewEpisode(client));
}

} // verus!
