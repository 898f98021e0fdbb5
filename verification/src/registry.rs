use vstd::prelude::*;
use std::sync::Arc;

verus! {

/// What a name in the script context is bound to: one of the functions that
/// scripts can call.
pub enum ScriptFunction<A> {
    /// `today(format)` of the first script functions (exact arguments).
    ImportToday,
    /// `get(urn)` of the first script functions.
    ImportGet,
    /// `fetch(url)` of the first script functions.
    ImportFetch,
    /// `llm(prompt)` of the first script functions.
    ImportLlm,
    /// `today(format)`: the local date.
    Today,
    /// `eval(template, values)`.
    Eval,
    /// `fetch(url)` taking its one argument as written.
    FetchUrl,
    /// `fetch(url)` on evaluated arguments.
    Fetch,
    /// `fetch_json(url)`.
    FetchJson,
    /// `text(html)`: readable text of a page.
    Text,
    /// `jq(value, query)`.
    Jq,
    /// `hq(html, selector)`.
    Hq,
    /// `replace(text, pattern, with)`.
    Replace,
    /// `get(urn)` answered from the data store.
    UrnGet,
    /// `llm(prompt)` with the API key it was registered with.
    ChatCompletion { api_key: String },
    /// `llm_assistant(prompt, assistant_id)` with the key and thread it was registered with.
    ChatAssistant { api_key: String, thread_id: String },
    /// `llm(api_key, prompt)`.
    Llm,
    /// `llm_function_calling(api_key, prompt, function)`.
    LlmFunctionCalling,
    /// `create_thread(api_key)`.
    CreateThread,
    /// `delete_thread(api_key, thread_id)`.
    DeleteThread,
    /// `llm_assistant(api_key, thread_id, assistant_id, prompt)`.
    LlmAssistant,
    /// `rss(xml)`.
    Rss,
    /// `rand(min, max)`.
    Rand,
    /// `choice(array)`.
    Choice,
    /// `me()`, answered through the API client it holds.
    Me(Arc<A>),
    /// `get_podcast(id)`, answered through the API client it holds.
    GetPodcast(Arc<A>),
    /// `get_episode(id)`, answered through the API client it holds.
    GetEpisode(Arc<A>),
    /// `get_comment(id)`, answered through the API client it holds.
    GetComment(Arc<A>),
    /// `new_comment(episode_id, content)`, answered through the API client it holds.
    NewComment(Arc<A>),
    /// `get_script(id)`, answered through the API client it holds.
    GetScript(Arc<A>),
    /// `new_episode(podcast_id, title, sections, description?)`, answered through the API client it holds.
    NewEpisode(Arc<A>),
    /// `update_episode(id, title, sections, description)`, answered through the API client it holds.
    UpdateEpisode(Arc<A>),
    /// `get_podcast_mails(corner_id)`, answered through the API client it holds.
    GetPodcastMails(Arc<A>),
}

/// `Arc::clone`: another pointer to the same allocation, so the same value.
#[verifier::external_body]
pub(crate) fn share<A>(a: &Arc<A>) -> (r: Arc<A>)
    ensures
        r == *a,
{
    Arc::clone(a)
}

/// The bindings of `entries`, later entries overriding earlier ones.
pub open spec fn bindings<A>(entries: Seq<(String, ScriptFunction<A>)>) -> Map<Seq<char>, ScriptFunction<A>>
    decreases entries.len(),
{
    if entries.len() == 0 {
        Map::empty()
    } else {
        bindings(entries.drop_last()).insert(entries.last().0@, entries.last().1)
    }
}

/// No name occurs twice.
pub open spec fn names_distinct<A>(entries: Seq<(String, ScriptFunction<A>)>) -> bool {
    forall|i: int, j: int| 0 <= i < j < entries.len() ==> entries[i].0@ != entries[j].0@
}

proof fn lemma_bindings_dom<A>(entries: Seq<(String, ScriptFunction<A>)>, k: Seq<char>)
    ensures
        bindings(entries).dom().contains(k) <==> exists|i: int| 0 <= i < entries.len() && entries[i].0@ == k,
    decreases entries.len(),
{
    if entries.len() > 0 {
        let rest = entries.drop_last();
        lemma_bindings_dom(rest, k);
        if bindings(rest).dom().contains(k) {
            let i = choose|i: int| 0 <= i < rest.len() && rest[i].0@ == k;
            assert(entries[i].0@ == k);
        }
        if exists|i: int| 0 <= i < entries.len() && entries[i].0@ == k {
            let i = choose|i: int| 0 <= i < entries.len() && entries[i].0@ == k;
            if i < entries.len() - 1 {
                assert(rest[i].0@ == k);
            }
        }
    }
}

proof fn lemma_bindings_at<A>(entries: Seq<(String, ScriptFunction<A>)>, i: int)
    requires
        names_distinct(entries),
        0 <= i < entries.len(),
    ensures
        bindings(entries).dom().contains(entries[i].0@),
        bindings(entries)[entries[i].0@] == entries[i].1,
    decreases entries.len(),
{
    if i < entries.len() - 1 {
        let rest = entries.drop_last();
        assert(rest[i] == entries[i]);
        lemma_bindings_at(rest, i);
    }
}

proof fn lemma_bindings_update<A>(entries: Seq<(String, ScriptFunction<A>)>, i: int, e: (String, ScriptFunction<A>))
    requires
        names_distinct(entries),
        0 <= i < entries.len(),
        entries[i].0@ == e.0@,
    ensures
        names_distinct(entries.update(i, e)),
        bindings(entries.update(i, e)) == bindings(entries).insert(e.0@, e.1),
{
    let after = entries.update(i, e);
    assert forall|a: int, b: int| 0 <= a < b < after.len() implies after[a].0@ != after[b].0@ by {
        assert(entries[a].0@ != entries[b].0@);
    }
    lemma_bindings_at(after, i);
    assert forall|k: Seq<char>| #[trigger] bindings(after).dom().contains(k)
        == bindings(entries).insert(e.0@, e.1).dom().contains(k) by {
        lemma_bindings_dom(after, k);
        lemma_bindings_dom(entries, k);
        if exists|j: int| 0 <= j < entries.len() && entries[j].0@ == k {
            let j = choose|j: int| 0 <= j < entries.len() && entries[j].0@ == k;
            assert(after[j].0@ == k);
        }
        if exists|j: int| 0 <= j < after.len() && after[j].0@ == k {
            let j = choose|j: int| 0 <= j < after.len() && after[j].0@ == k;
            assert(entries[j].0@ == k);
        }
    }
    assert forall|k: Seq<char>| #[trigger] bindings(after).dom().contains(k) implies bindings(after)[k]
        == bindings(entries).insert(e.0@, e.1)[k] by {
        if k != e.0@ {
            lemma_bindings_dom(after, k);
            let j = choose|j: int| 0 <= j < after.len() && after[j].0@ == k;
            assert(j != i);
            assert(after[j] == entries[j]);
            lemma_bindings_at(after, j);
            lemma_bindings_at(entries, j);
        }
    }
    assert(bindings(after) =~= bindings(entries).insert(e.0@, e.1));
}

proof fn lemma_bindings_push<A>(entries: Seq<(String, ScriptFunction<A>)>, e: (String, ScriptFunction<A>))
    requires
        names_distinct(entries),
        forall|j: int| 0 <= j < entries.len() ==> entries[j].0@ != e.0@,
    ensures
        names_distinct(entries.push(e)),
        bindings(entries.push(e)) == bindings(entries).insert(e.0@, e.1),
{
    assert(entries.push(e).drop_last() =~= entries);
}

/// The functions a script can call, by name. Binding a name again replaces
/// what it was bound to.
pub struct FunctionTable<A> {
    entries: Vec<(String, ScriptFunction<A>)>,
}

impl<A> View for FunctionTable<A> {
    type V = Map<Seq<char>, ScriptFunction<A>>;

    closed spec fn view(&self) -> Map<Seq<char>, ScriptFunction<A>> {
        bindings(self.entries@)
    }
}

impl<A> FunctionTable<A> {
    #[verifier::type_invariant]
    spec fn inv(self) -> bool {
        names_distinct(self.entries@)
    }

    /// A table with no bindings.
    pub fn new() -> (t: FunctionTable<A>)
        ensures
            t@ == Map::<Seq<char>, ScriptFunction<A>>::empty(),
    {
        FunctionTable { entries: Vec::new() }
    }

    /// Binds `name` to `f`, replacing an earlier binding of the name.
    pub fn insert(&mut self, name: String, f: ScriptFunction<A>)
        ensures
            final(self)@ == old(self)@.insert(name@, f),
    {
        proof {
            use_type_invariant(&*self);
        }
        let mut i: usize = 0;
        while i < self.entries.len()
            invariant
                i <= self.entries@.len(),
                names_distinct(self.entries@),
                self.entries@ == old(self).entries@,
                forall|j: int| 0 <= j < i ==> self.entries@[j].0@ != name@,
            decreases self.entries@.len() - i,
        {
            if self.entries[i].0 == name {
                proof {
                    lemma_bindings_update(self.entries@, i as int, (name, f));
                }
                let mut entries = Vec::new();
                std::mem::swap(&mut entries, &mut self.entries);
                entries.set(i, (name, f));
                self.entries = entries;
                return;
            }
            i += 1;
        }
        proof {
            lemma_bindings_push(self.entries@, (name, f));
        }
        let mut entries = Vec::new();
        std::mem::swap(&mut entries, &mut self.entries);
        entries.push((name, f));
        self.entries = entries;
    }

    /// What `name` is bound to, if anything.
    pub fn get(&self, name: &String) -> (r: Option<&ScriptFunction<A>>)
        ensures
            match r {
                Some(f) => self@.dom().contains(name@) && *f == self@[name@],
                None => !self@.dom().contains(name@),
            },
    {
        proof {
            use_type_invariant(self);
        }
        let mut i: usize = 0;
        while i < self.entries.len()
            invariant
                i <= self.entries@.len(),
                names_distinct(self.entries@),
                forall|j: int| 0 <= j < i ==> self.entries@[j].0@ != name@,
            decreases self.entries@.len() - i,
        {
            if self.entries[i].0 == *name {
                proof {
                    lemma_bindings_at(self.entries@, i as int);
                }
                return Some(&self.entries[i].1);
            }
            i += 1;
        }
        proof {
            lemma_bindings_dom(self.entries@, name@);
        }
        None
    }
}

/// Looking a name up right after binding it gives the function just bound;
/// every other name keeps what it was bound to.
pub proof fn law_binding_read_back<A>(
    t: Map<Seq<char>, ScriptFunction<A>>,
    name: Seq<char>,
    f: ScriptFunction<A>,
    other: Seq<char>,
)
    requires
        other != name,
    ensures
        t.insert(name, f).dom().contains(name),
        t.insert(name, f)[name] == f,
        t.insert(name, f).dom().contains(other) == t.dom().contains(other),
        t.dom().contains(other) ==> t.insert(name, f)[other] == t[other],
{
}

} // verus!
