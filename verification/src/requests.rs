use vstd::prelude::*;
use crate::manuscript::Section;
use crate::script::{
    as_string, leading_strings, reads_in_bounds, spec_as_string, strings_prefix, ArgError, JsonValue,
};

verus! {

/// A request to create an episode of a podcast.
pub struct NewEpisodeRequest {
    pub podcast_id: String,
    pub title: String,
    pub description: Option<String>,
    pub sections: Vec<Section>,
}

/// A request to change an episode.
pub struct UpdateEpisodeRequest {
    pub id: String,
    pub title: String,
    pub description: Option<String>,
    pub sections: Option<Vec<Section>>,
}

/// `o` holds a string whose view is `s`.
pub open spec fn holds_text(o: Option<String>, s: Seq<char>) -> bool {
    o matches Some(x) && x@ == s
}

/// What `new_episode_request` answers on these arguments.
pub open spec fn new_episode_request_is(
    evaluated: Seq<JsonValue>,
    sections: Result<Vec<Section>, ArgError>,
    r: Result<NewEpisodeRequest, ArgError>,
) -> bool {
    &&& (strings_prefix(evaluated, 2) is None ==> r == Err::<NewEpisodeRequest, ArgError>(ArgError::ExpectedString))
    &&& (strings_prefix(evaluated, 2) is Some ==> match sections {
            Err(e) => r == Err::<NewEpisodeRequest, ArgError>(e),
            Ok(secs) => {
                let ss = strings_prefix(evaluated, 2)->0;
                if evaluated.len() > 3 && spec_as_string(evaluated[3]) is None {
                    r == Err::<NewEpisodeRequest, ArgError>(ArgError::ExpectedString)
                } else {
                    &&& r matches Ok(q)
                    &&& q.podcast_id@ == ss[0]
                    &&& q.title@ == ss[1]
                    &&& q.sections@ == secs@
                    &&& (evaluated.len() > 3 ==> holds_text(q.description, spec_as_string(evaluated[3])->0))
                    &&& (evaluated.len() <= 3 ==> q.description is None)
                }
            },
        })
}

/// The request of `new_episode(podcast_id, title, sections, description?)`.
/// The podcast id and the title are read first, then the sections (argument
/// 2, decoded by the caller into `sections`), then the description, taken
/// when a fourth argument is given and refused when it is not a string.
pub fn new_episode_request(evaluated: &Vec<JsonValue>, sections: Result<Vec<Section>, ArgError>) -> (r: Result<
    NewEpisodeRequest,
    ArgError,
>)
    requires
        reads_in_bounds(evaluated@, 3),
    ensures
        new_episode_request_is(evaluated@, sections, r),
{
    let head = leading_strings(evaluated, 2)?;
    let secs = sections?;
    let podcast_id = head[0].clone();
    let title = head[1].clone();
    proof {
        assert(head@.map_values(|s: String| s@)[0] == head@[0]@);
        assert(head@.map_values(|s: String| s@)[1] == head@[1]@);
    }
    let description = if evaluated.len() > 3 {
        Some(as_string(&evaluated[3])?)
    } else {
        None
    };
    Ok(NewEpisodeRequest { podcast_id, title, description, sections: secs })
}

/// What `update_episode_request` answers on these arguments.
pub open spec fn update_episode_request_is(
    evaluated: Seq<JsonValue>,
    sections: Result<Vec<Section>, ArgError>,
    r: Result<UpdateEpisodeRequest, ArgError>,
) -> bool {
    &&& (strings_prefix(evaluated, 2) is None ==> r == Err::<UpdateEpisodeRequest, ArgError>(ArgError::ExpectedString))
    &&& (strings_prefix(evaluated, 2) is Some ==> match sections {
            Err(e) => r == Err::<UpdateEpisodeRequest, ArgError>(e),
            Ok(secs) => {
                let ss = strings_prefix(evaluated, 2)->0;
                match spec_as_string(evaluated[3]) {
                    None => r == Err::<UpdateEpisodeRequest, ArgError>(ArgError::ExpectedString),
                    Some(d) => {
                        &&& r matches Ok(q)
                        &&& q.id@ == ss[0]
                        &&& q.title@ == ss[1]
                        &&& holds_text(q.description, d)
                        &&& (evaluated[2] is Null ==> q.sections is None)
                        &&& (!(evaluated[2] is Null) ==> (q.sections matches Some(v) && v@ == secs@))
                    },
                }
            },
        })
}

/// The request of `update_episode(id, title, sections, description)`. The id
/// and the title are read first, then the sections (argument 2, decoded by the
/// caller into `sections`; a decoded `null` would leave them unchanged), then
/// the description, which is read as a string in every case, so `null` is
/// refused.
pub fn update_episode_request(evaluated: &Vec<JsonValue>, sections: Result<Vec<Section>, ArgError>) -> (r: Result<
    UpdateEpisodeRequest,
    ArgError,
>)
    requires
        reads_in_bounds(evaluated@, 3),
        evaluated@.len() >= 4 || strings_prefix(evaluated@, 2) is None || sections is Err,
    ensures
        update_episode_request_is(evaluated@, sections, r),
{
    let head = leading_strings(evaluated, 2)?;
    let secs = sections?;
    let id = head[0].clone();
    let title = head[1].clone();
    proof {
        assert(head@.map_values(|s: String| s@)[0] == head@[0]@);
        assert(head@.map_values(|s: String| s@)[1] == head@[1]@);
    }
    let sections = match &evaluated[2] {
        JsonValue::Null => None,
        _ => Some(secs),
    };
    let description = as_string(&evaluated[3])?;
    Ok(UpdateEpisodeRequest { id, title, description: Some(description), sections })
}

} // verus!
