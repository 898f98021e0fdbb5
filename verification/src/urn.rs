use vstd::prelude::*;
use crate::text::{chars_of, string_from};

verus! {

/// A resource name of the form `urn:<resource>:<resource id>`.
pub struct Urn(pub String);

/// Why a URN was refused; it carries the text that was given.
pub enum UrnError {
    Invalid { urn: String },
}

/// `"urn:"`, the prefix every URN starts with.
pub open spec fn urn_prefix() -> Seq<char> {
    seq!['u', 'r', 'n', ':']
}

/// The text of the URN naming `resource_id` of kind `resource`.
pub open spec fn urn_text(resource: Seq<char>, resource_id: Seq<char>) -> Seq<char> {
    urn_prefix() + resource + seq![':'] + resource_id
}

/// `s` is the URN of (`resource`, `resource_id`): the resource holds no `:`,
/// the id may hold any character.
pub open spec fn is_urn_of(s: Seq<char>, resource: Seq<char>, resource_id: Seq<char>) -> bool {
    &&& !resource.contains(':')
    &&& s == urn_text(resource, resource_id)
}

/// `s` is the text of some URN.
pub open spec fn is_urn(s: Seq<char>) -> bool {
    exists|resource: Seq<char>, resource_id: Seq<char>| is_urn_of(s, resource, resource_id)
}

impl UrnError {
    /// The message the error is reported with: `Invalid URN: <text>`.
    pub fn message(&self) -> (m: String)
        ensures
            m@ == seq!['I', 'n', 'v', 'a', 'l', 'i', 'd', ' ', 'U', 'R', 'N', ':', ' '] + self.urn_text(),
    {
        match self {
            UrnError::Invalid { urn } => {
                let mut m = String::from_str("Invalid URN: ");
                proof {
                    reveal_strlit("Invalid URN: ");
                }
                m.append(urn.as_str());
                m
            },
        }
    }

    /// The text that was refused.
    pub open spec fn urn_text(&self) -> Seq<char> {
        match self {
            UrnError::Invalid { urn } => urn@,
        }
    }
}

/// Index of the first `c` in `v` at or after `from`, or `v.len()` when there is none.
fn find_from(v: &Vec<char>, from: usize, c: char) -> (k: usize)
    requires
        from <= v.len(),
    ensures
        from <= k <= v.len(),
        k < v.len() ==> v@[k as int] == c,
        forall|m: int| from <= m < k ==> v@[m] != c,
{
    let mut k = from;
    while k < v.len() && v[k] != c
        invariant
            from <= k <= v.len(),
            forall|m: int| from <= m < k ==> v@[m] != c,
        decreases v.len() - k,
    {
        k += 1;
    }
    k
}

/// Splits a URN into its resource and resource id.
///
/// The text is cut at its first two colons; the part before the first must be
/// `urn`, and the rest after the second colon is the id, colons included.
pub fn parse_urn(urn: &Urn) -> (res: Result<(String, String), UrnError>)
    ensures
        match res {
            Ok((resource, resource_id)) => is_urn_of(urn.0@, resource@, resource_id@),
            Err(e) => e.urn_text() == urn.0@ && !is_urn(urn.0@),
        },
{
    let cs = chars_of(urn.0.as_str());
    let n = cs.len();
    let i = find_from(&cs, 0, ':');
    let j = if i < n { find_from(&cs, i + 1, ':') } else { n };
    if j < n && i == 3 && cs[0] == 'u' && cs[1] == 'r' && cs[2] == 'n' {
        let resource = string_from(&cs, 4, j);
        let resource_id = string_from(&cs, j + 1, n);
        proof {
            let s = urn.0@;
            assert(!resource@.contains(':')) by {
                assert forall|m: int| 0 <= m < resource@.len() implies resource@[m] != ':' by {
                    assert(resource@[m] == cs@[m + 4]);
                }
            }
            assert(s == urn_text(resource@, resource_id@));
        }
        Ok((resource, resource_id))
    } else {
        proof {
            let s = urn.0@;
            if is_urn(s) {
                let (r, id) = choose|r: Seq<char>, id: Seq<char>| is_urn_of(s, r, id);
                assert(s[3] == ':');
                assert(s[0] == 'u' && s[1] == 'r' && s[2] == 'n');
                assert(i == 3);
                let k: int = 4 + r.len() as int;
                assert(s[k] == ':');
                assert forall|m: int| 4 <= m < k implies s[m] != ':' by {
                    assert(s[m] == r[m - 4]);
                }
                assert(j == k);
                assert(false);
            }
        }
        let copy = urn.0.clone();
        Err(UrnError::Invalid { urn: copy })
    }
}


/// A URN names one resource kind and one id: the two parts are fixed by the text.
pub proof fn law_urn_parts_unique(
    s: Seq<char>,
    r1: Seq<char>,
    id1: Seq<char>,
    r2: Seq<char>,
    id2: Seq<char>,
)
    requires
        is_urn_of(s, r1, id1),
        is_urn_of(s, r2, id2),
    ensures
        r1 == r2,
        id1 == id2,
{
    if r1.len() < r2.len() {
        assert(s[4 + r1.len() as int] == ':');
        assert(s[4 + r1.len() as int] == r2[r1.len() as int]);
    } else if r2.len() < r1.len() {
        assert(s[4 + r2.len() as int] == ':');
        assert(s[4 + r2.len() as int] == r1[r2.len() as int]);
    }
    assert(r1 =~= s.subrange(4, 4 + r1.len() as int));
    assert(r2 =~= s.subrange(4, 4 + r2.len() as int));
    assert(id1 =~= s.skip(5 + r1.len() as int));
    assert(id2 =~= s.skip(5 + r2.len() as int));
}

/// Writing a URN from a colon-free resource and any id and parsing it back
/// gives the same resource and id; such a text is always accepted.
pub proof fn law_urn_roundtrip(resource: Seq<char>, resource_id: Seq<char>, r: Seq<char>, id: Seq<char>)
    requires
        !resource.contains(':'),
    ensures
        is_urn(urn_text(resource, resource_id)),
        is_urn_of(urn_text(resource, resource_id), r, id) ==> r == resource && id == resource_id,
{
    assert(is_urn_of(urn_text(resource, resource_id), resource, resource_id));
    if is_urn_of(urn_text(resource, resource_id), r, id) {
        law_urn_parts_unique(urn_text(resource, resource_id), r, id, resource, resource_id);
    }
}

} // verus!
