use vstd::prelude::*;
use crate::error::RepoError;
use crate::script::JsonValue;

verus! {

/// A URN of the data store.
pub enum RepoUrn {
    Podcast(String),
    Episode(String),
    Comment(String),
    Script(String),
    /// A resource the store does not keep.
    Other(String, String),
}

/// What resolving a URN asks the store for.
pub enum UrnLookup {
    /// The podcast, and the episodes of the podcast.
    Podcast { id: String },
    /// The episode with its comments.
    Episode { id: String },
    Comment { id: String },
    Script { id: String },
}

/// The fields of an object as plain values.
pub open spec fn fields_view(fields: Seq<(String, JsonValue)>) -> Seq<(Seq<char>, JsonValue)> {
    fields.map_values(|p: (String, JsonValue)| (p.0@, p.1))
}

/// No two fields have the same name, as in a JSON object.
pub open spec fn keys_distinct(fields: Seq<(Seq<char>, JsonValue)>) -> bool {
    forall|i: int, j: int| 0 <= i < j < fields.len() ==> fields[i].0 != fields[j].0
}

/// An object's field names are distinct; other values need nothing.
pub open spec fn object_keys_distinct(v: JsonValue) -> bool {
    match v {
        JsonValue::Object(fs) => keys_distinct(fields_view(fs@)),
        _ => true,
    }
}

/// `i` is the first field named `key`.
pub open spec fn first_field(fields: Seq<(Seq<char>, JsonValue)>, key: Seq<char>, i: int) -> bool {
    &&& 0 <= i < fields.len()
    &&& fields[i].0 == key
    &&& forall|j: int| 0 <= j < i ==> fields[j].0 != key
}

/// The fields after setting `key` to `v`: the first field of that name gets
/// the value, or the field is added at the end.
pub open spec fn fields_set(
    before: Seq<(Seq<char>, JsonValue)>,
    key: Seq<char>,
    v: JsonValue,
    after: Seq<(Seq<char>, JsonValue)>,
) -> bool {
    ||| exists|i: int| first_field(before, key, i) && after == before.update(i, (key, v))
    ||| (forall|j: int| 0 <= j < before.len() ==> before[j].0 != key) && after == before.push((key, v))
}

/// What `value[key] = v` leaves: `null` becomes an object with that one field;
/// an object gets the field set.
pub open spec fn index_set_is(value: JsonValue, key: Seq<char>, v: JsonValue, r: JsonValue) -> bool {
    match value {
        JsonValue::Null => r matches JsonValue::Object(fs) && fields_view(fs@) == seq![(key, v)],
        JsonValue::Object(before) => r matches JsonValue::Object(fs) && fields_set(
            fields_view(before@),
            key,
            v,
            fields_view(fs@),
        ),
        _ => false,
    }
}

/// Sets the field `key` of an object to `v`.
pub fn set_field(fields: Vec<(String, JsonValue)>, key: String, v: JsonValue) -> (r: Vec<(String, JsonValue)>)
    requires
        keys_distinct(fields_view(fields@)),
    ensures
        fields_set(fields_view(fields@), key@, v, fields_view(r@)),
        keys_distinct(fields_view(r@)),
{
    let ghost before = fields_view(fields@);
    let ghost k = key@;
    let mut out = fields;
    let mut i: usize = 0;
    while i < out.len()
        invariant
            i <= out@.len(),
            fields_view(out@) == before,
            k == key@,
            before == fields_view(fields@),
            keys_distinct(before),
            forall|j: int| 0 <= j < i ==> before[j].0 != k,
        decreases out@.len() - i,
    {
        if out[i].0 == key {
            assert(first_field(before, k, i as int));
            out.set(i, (key, v));
            assert(fields_view(out@) =~= before.update(i as int, (k, v)));
            assert forall|a: int, b: int| 0 <= a < b < fields_view(out@).len() implies fields_view(out@)[a].0
                != fields_view(out@)[b].0 by {
                assert(fields_view(out@)[a].0 == before[a].0);
                assert(fields_view(out@)[b].0 == before[b].0);
            }
            return out;
        }
        i += 1;
    }
    out.push((key, v));
    assert(fields_view(out@) =~= before.push((k, v)));
    assert forall|a: int, b: int| 0 <= a < b < fields_view(out@).len() implies fields_view(out@)[a].0
        != fields_view(out@)[b].0 by {
        if b == before.len() {
            assert(before[a].0 != k);
        }
    }
    out
}

/// `value[key] = v` on a JSON value that is `null` or an object (any other
/// value makes the indexing panic).
pub fn index_set(value: JsonValue, key: String, v: JsonValue) -> (r: JsonValue)
    requires
        value is Null || value is Object,
        object_keys_distinct(value),
    ensures
        index_set_is(value, key@, v, r),
        object_keys_distinct(r),
{
    match value {
        JsonValue::Object(fields) => JsonValue::Object(set_field(fields, key, v)),
        _ => {
            let ghost k = key@;
            let fields = vec![(key, v)];
            assert(fields_view(fields@) =~= seq![(k, v)]);
            JsonValue::Object(fields)
        },
    }
}

/// What resolving `urn` asks the store for; a resource the store does not
/// keep is not found.
pub fn urn_lookup(urn: RepoUrn) -> (r: Result<UrnLookup, RepoError>)
    ensures
        match urn {
            RepoUrn::Podcast(id) => r matches Ok(UrnLookup::Podcast { id: i }) && i == id,
            RepoUrn::Episode(id) => r matches Ok(UrnLookup::Episode { id: i }) && i == id,
            RepoUrn::Comment(id) => r matches Ok(UrnLookup::Comment { id: i }) && i == id,
            RepoUrn::Script(id) => r matches Ok(UrnLookup::Script { id: i }) && i == id,
            RepoUrn::Other(resource, id) => r matches Err(RepoError::NotFound { resource: x, id: y }) && x == resource
                && y == id,
        },
{
    match urn {
        RepoUrn::Podcast(id) => Ok(UrnLookup::Podcast { id }),
        RepoUrn::Episode(id) => Ok(UrnLookup::Episode { id }),
        RepoUrn::Comment(id) => Ok(UrnLookup::Comment { id }),
        RepoUrn::Script(id) => Ok(UrnLookup::Script { id }),
        RepoUrn::Other(resource, id) => Err(RepoError::NotFound { resource, id }),
    }
}

/// The value of `get(urn)` once the store has answered with `record` and, for
/// a podcast or an episode, with the `related` records: a podcast carries its
/// episodes under `episodes`, an episode its comments under `comments`; a
/// comment or a script is the record itself.
pub fn urn_get_value(lookup: &UrnLookup, record: JsonValue, related: JsonValue) -> (r: JsonValue)
    requires
        (lookup is Podcast || lookup is Episode) ==> (record is Null || record is Object),
        object_keys_distinct(record),
    ensures
        object_keys_distinct(r),
        match *lookup {
            UrnLookup::Podcast { .. } => index_set_is(record, "episodes"@, related, r),
            UrnLookup::Episode { .. } => index_set_is(record, "comments"@, related, r),
            _ => r == record,
        },
{
    match lookup {
        UrnLookup::Podcast { .. } => index_set(record, "episodes".to_owned(), related),
        UrnLookup::Episode { .. } => index_set(record, "comments".to_owned(), related),
        _ => record,
    }
}

/// The value the script context resolves a URN to once the store has
/// answered: an episode (an object) carries its comments under `comments`;
/// a podcast, a comment or a script is the record itself.
pub fn resolved_value(lookup: &UrnLookup, record: JsonValue, comments: JsonValue) -> (r: JsonValue)
    requires
        lookup is Episode ==> record is Object,
        object_keys_distinct(record),
    ensures
        object_keys_distinct(r),
        match *lookup {
            UrnLookup::Episode { .. } => index_set_is(record, "comments"@, comments, r),
            _ => r == record,
        },
{
    match lookup {
        UrnLookup::Episode { .. } => match record {
            JsonValue::Object(fields) => JsonValue::Object(set_field(fields, "comments".to_owned(), comments)),
            _ => record,
        },
        _ => record,
    }
}

/// After setting `key` to `v`, the first field named `key` holds `v`, and
/// every field of another name is as it was.
pub proof fn law_set_field_reads_back(
    before: Seq<(Seq<char>, JsonValue)>,
    key: Seq<char>,
    v: JsonValue,
    after: Seq<(Seq<char>, JsonValue)>,
    j: int,
)
    requires
        fields_set(before, key, v, after),
        0 <= j < before.len(),
        before[j].0 != key,
    ensures
        exists|i: int| first_field(after, key, i) && after[i].1 == v,
        after[j] == before[j],
{
    if exists|i: int| first_field(before, key, i) && after == before.update(i, (key, v)) {
        let i = choose|i: int| first_field(before, key, i) && after == before.update(i, (key, v));
        assert(first_field(after, key, i) && after[i].1 == v);
    } else {
        let n = before.len() as int;
        assert(first_field(after, key, n) && after[n].1 == v);
    }
}

/// Setting a field and then setting it again to the same value leaves the
/// object as after the first setting.
pub proof fn law_set_field_twice(
    before: Seq<(Seq<char>, JsonValue)>,
    key: Seq<char>,
    v: JsonValue,
    once: Seq<(Seq<char>, JsonValue)>,
    twice: Seq<(Seq<char>, JsonValue)>,
)
    requires
        fields_set(before, key, v, once),
        fields_set(once, key, v, twice),
    ensures
        twice == once,
{
    if exists|i: int| first_field(before, key, i) && once == before.update(i, (key, v)) {
        let i = choose|i: int| first_field(before, key, i) && once == before.update(i, (key, v));
        assert(first_field(once, key, i));
        if exists|k: int| first_field(once, key, k) && twice == once.update(k, (key, v)) {
            let k = choose|k: int| first_field(once, key, k) && twice == once.update(k, (key, v));
            assert(k == i);
            assert(twice =~= once);
        } else {
            assert(once[i].0 == key);
        }
    } else {
        let n = before.len() as int;
        assert(once[n].0 == key);
        assert(first_field(once, key, n));
        if exists|k: int| first_field(once, key, k) && twice == once.update(k, (key, v)) {
            let k = choose|k: int| first_field(once, key, k) && twice == once.update(k, (key, v));
            assert(k == n);
            assert(twice =~= once);
        }
    }
}

} // verus!
