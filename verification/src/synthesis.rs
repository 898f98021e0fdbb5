use vstd::prelude::*;
use crate::text::{all_white_space, chars_of, is_trim_of, law_trim_unique, string_from, trim_bounds};

verus! {

/// The text with leading and trailing white space removed.
pub open spec fn trimmed(s: Seq<char>) -> Seq<char> {
    choose|t: Seq<char>| is_trim_of(s, t)
}

/// Where the run is within the current sentence.
#[derive(PartialEq, Eq, Structural)]
pub enum Stage {
    /// Waiting for the speech query of the current sentence.
    Querying,
    /// Waiting for the audio of the current sentence to be synthesised into its file.
    Synthesizing,
    /// Waiting to learn whether the audio file of the current sentence exists.
    Checking,
    /// Every sentence has been handled.
    Finished,
}

/// What the driver of a run must do next.
pub enum SynthesisAction {
    /// Ask the speech engine for a query of `text` (the trimmed sentence `index`).
    Query { index: usize, text: String },
    /// Synthesise the query just obtained into the file of sentence `index`.
    Synthesize { index: usize },
    /// Report whether the file of sentence `index` exists.
    CheckWritten { index: usize },
    /// Nothing is left to do; the collected sentences are the result.
    Finish,
}

/// A sentence whose audio was written: its position among the inputs and its trimmed text.
pub struct Spoken {
    pub index: usize,
    pub text: String,
}

impl Spoken {
    pub open spec fn view_pair(self) -> (usize, Seq<char>) {
        (self.index, self.text@)
    }
}

/// The decisions of synthesising a list of sentences one by one: blank
/// sentences are skipped, a sentence whose query or synthesis fails is
/// skipped, and a sentence whose audio file exists afterwards is kept.
pub struct SynthesisRun {
    sentences: Vec<String>,
    index: usize,
    stage: Stage,
    collected: Vec<Spoken>,
}

/// The first sentence at or after `from` that is not blank, or the number of sentences.
pub open spec fn next_spoken(ss: Seq<Seq<char>>, from: int) -> int
    decreases ss.len() - from,
{
    if from >= ss.len() {
        ss.len() as int
    } else if !all_white_space(ss[from]) {
        from
    } else {
        next_spoken(ss, from + 1)
    }
}

/// Steps left until a run over `n` sentences standing at `index` in `stage` finishes, at most.
pub open spec fn remaining_steps(n: int, index: int, stage: Stage) -> int {
    3 * (n - index) - match stage {
        Stage::Querying => 0int,
        Stage::Synthesizing => 1int,
        Stage::Checking => 2int,
        Stage::Finished => 0int,
    }
}

proof fn lemma_next_spoken(ss: Seq<Seq<char>>, from: int)
    requires
        0 <= from <= ss.len(),
    ensures
        from <= next_spoken(ss, from) <= ss.len(),
        next_spoken(ss, from) < ss.len() ==> !all_white_space(ss[next_spoken(ss, from)]),
        forall|k: int| from <= k < next_spoken(ss, from) ==> all_white_space(#[trigger] ss[k]),
    decreases ss.len() - from,
{
    if from < ss.len() && all_white_space(ss[from]) {
        lemma_next_spoken(ss, from + 1);
    }
}

impl SynthesisRun {
    pub closed spec fn sentences_view(&self) -> Seq<Seq<char>> {
        self.sentences@.map_values(|s: String| s@)
    }

    pub closed spec fn index_view(&self) -> int {
        self.index as int
    }

    pub closed spec fn stage_view(&self) -> Stage {
        self.stage
    }

    pub closed spec fn collected_view(&self) -> Seq<(usize, Seq<char>)> {
        self.collected@.map_values(|s: Spoken| s.view_pair())
    }

    /// The run's invariant: it stands on a sentence that is not blank, or it
    /// has finished; it has kept only sentences before the current one, in
    /// increasing order, each trimmed and not blank.
    pub open spec fn wf(&self) -> bool {
        let ss = self.sentences_view();
        let i = self.index_view();
        &&& 0 <= i <= ss.len()
        &&& (self.stage_view() == Stage::Finished) == (i == ss.len())
        &&& i < ss.len() ==> !all_white_space(ss[i])
        &&& collected_well_ordered(ss, self.collected_view(), i)
    }

    /// Steps left before the run finishes, at most.
    pub open spec fn steps_left(&self) -> int {
        remaining_steps(self.sentences_view().len() as int, self.index_view(), self.stage_view())
    }

    /// The kept sentences once the current one's file was found (`written`) or not.
    pub open spec fn kept_after_check(&self, written: bool) -> Seq<(usize, Seq<char>)> {
        if written {
            self.collected_view().push((self.index_view() as usize, trimmed(self.sentences_view()[self.index_view()])))
        } else {
            self.collected_view()
        }
    }

    /// The run has finished.
    pub fn is_finished(&self) -> (b: bool)
        ensures
            b == (self.stage_view() == Stage::Finished),
    {
        self.stage == Stage::Finished
    }

    /// The sentences kept so far.
    pub fn collected(&self) -> (c: &Vec<Spoken>)
        ensures
            c@.map_values(|s: Spoken| s.view_pair()) == self.collected_view(),
    {
        &self.collected
    }

    /// Moves to the first non-blank sentence at or after `from` and says what to do there.
    fn advance(&mut self, from: usize) -> (action: SynthesisAction)
        requires
            from <= old(self).sentences@.len(),
            collected_well_ordered(old(self).sentences_view(), old(self).collected_view(), from as int),
        ensures
            final(self).sentences_view() == old(self).sentences_view(),
            final(self).collected_view() == old(self).collected_view(),
            final(self).index_view() == next_spoken(old(self).sentences_view(), from as int),
            final(self).stage_view() == if final(self).index_view() < old(self).sentences_view().len() {
                Stage::Querying
            } else {
                Stage::Finished
            },
            final(self).wf(),
            action_for(final(self).sentences_view(), final(self).index_view(), final(self).stage_view(), action),
    {
        let ghost ss = self.sentences_view();
        proof {
            lemma_next_spoken(ss, from as int);
        }
        let mut j = from;
        while j < self.sentences.len()
            invariant
                from <= j <= self.sentences@.len(),
                ss == self.sentences_view(),
                ss.len() == self.sentences@.len(),
                ss == old(self).sentences_view(),
                self.collected_view() == old(self).collected_view(),
                collected_well_ordered(ss, self.collected_view(), from as int),
                next_spoken(ss, from as int) == next_spoken(ss, j as int),
            decreases self.sentences.len() - j,
        {
            let v = chars_of(self.sentences[j].as_str());
            let (a, b) = trim_bounds(&v, 0, v.len());
            proof {
                assert(v@.subrange(0, v@.len() as int) == v@);
                assert(ss[j as int] == self.sentences@[j as int]@);
            }
            if a < b {
                let text = string_from(&v, a, b);
                self.index = j;
                self.stage = Stage::Querying;
                proof {
                    assert(next_spoken(ss, j as int) == j);
                    law_trim_unique(ss[j as int], text@, trimmed(ss[j as int]));
                    lemma_collected_extend(ss, self.collected_view(), from as int, j as int);
                }
                return SynthesisAction::Query { index: j, text };
            }
            j += 1;
        }
        self.index = j;
        self.stage = Stage::Finished;
        proof {
            lemma_collected_extend(ss, self.collected_view(), from as int, j as int);
        }
        SynthesisAction::Finish
    }

    /// Starts a run over `sentences` and says what to do first.
    pub fn new(sentences: Vec<String>) -> (r: (SynthesisRun, SynthesisAction))
        ensures
            r.0.wf(),
            r.0.sentences_view() == sentences@.map_values(|s: String| s@),
            r.0.collected_view() == Seq::<(usize, Seq<char>)>::empty(),
            r.0.index_view() == next_spoken(r.0.sentences_view(), 0),
            r.0.stage_view() == if r.0.index_view() < r.0.sentences_view().len() {
                Stage::Querying
            } else {
                Stage::Finished
            },
            action_for(r.0.sentences_view(), r.0.index_view(), r.0.stage_view(), r.1),
    {
        let mut run = SynthesisRun { sentences, index: 0, stage: Stage::Finished, collected: Vec::new() };
        proof {
            assert(run.collected_view() =~= Seq::<(usize, Seq<char>)>::empty());
        }
        let action = run.advance(0);
        (run, action)
    }

    /// The query of the current sentence came back (`ok`) or failed.
    /// On success the audio is synthesised next; on failure the sentence is skipped.
    pub fn on_queried(&mut self, ok: bool) -> (action: SynthesisAction)
        requires
            old(self).wf(),
            old(self).stage_view() == Stage::Querying,
        ensures
            final(self).wf(),
            final(self).sentences_view() == old(self).sentences_view(),
            final(self).collected_view() == old(self).collected_view(),
            ok ==> final(self).index_view() == old(self).index_view() && final(self).stage_view()
                == Stage::Synthesizing,
            !ok ==> final(self).index_view() == next_spoken(old(self).sentences_view(), old(self).index_view() + 1),
            !ok ==> final(self).stage_view() == if final(self).index_view() < final(self).sentences_view().len() {
                Stage::Querying
            } else {
                Stage::Finished
            },
            final(self).steps_left() < old(self).steps_left(),
            action_for(final(self).sentences_view(), final(self).index_view(), final(self).stage_view(), action),
    {
        if ok {
            self.stage = Stage::Synthesizing;
            SynthesisAction::Synthesize { index: self.index }
        } else {
            proof {
                lemma_collected_extend(self.sentences_view(), self.collected_view(), self.index as int, self.index + 1);
                lemma_next_spoken(self.sentences_view(), self.index + 1);
            }
            let n = self.sentences.len();
            assert(self.index < n);
            let from = self.index + 1;
            self.advance(from)
        }
    }

    /// The synthesis of the current sentence finished (`ok`) or failed.
    /// On success the file is checked next; on failure the sentence is skipped.
    pub fn on_synthesized(&mut self, ok: bool) -> (action: SynthesisAction)
        requires
            old(self).wf(),
            old(self).stage_view() == Stage::Synthesizing,
        ensures
            final(self).wf(),
            final(self).sentences_view() == old(self).sentences_view(),
            final(self).collected_view() == old(self).collected_view(),
            ok ==> final(self).index_view() == old(self).index_view() && final(self).stage_view() == Stage::Checking,
            !ok ==> final(self).index_view() == next_spoken(old(self).sentences_view(), old(self).index_view() + 1),
            !ok ==> final(self).stage_view() == if final(self).index_view() < final(self).sentences_view().len() {
                Stage::Querying
            } else {
                Stage::Finished
            },
            final(self).steps_left() < old(self).steps_left(),
            action_for(final(self).sentences_view(), final(self).index_view(), final(self).stage_view(), action),
    {
        if ok {
            self.stage = Stage::Checking;
            SynthesisAction::CheckWritten { index: self.index }
        } else {
            proof {
                lemma_collected_extend(self.sentences_view(), self.collected_view(), self.index as int, self.index + 1);
                lemma_next_spoken(self.sentences_view(), self.index + 1);
            }
            let n = self.sentences.len();
            assert(self.index < n);
            let from = self.index + 1;
            self.advance(from)
        }
    }

    /// Whether the audio file of the current sentence exists. If it does, the
    /// sentence is kept with its trimmed text; either way the run moves on.
    pub fn on_written(&mut self, written: bool) -> (action: SynthesisAction)
        requires
            old(self).wf(),
            old(self).stage_view() == Stage::Checking,
        ensures
            written_to(*old(self), written, *final(self), action),
    {
        let ghost ss = self.sentences_view();
        let i = self.index;
        let n = self.sentences.len();
        assert(i < n);
        if written {
            let v = chars_of(self.sentences[i].as_str());
            let (a, b) = trim_bounds(&v, 0, v.len());
            let text = string_from(&v, a, b);
            proof {
                assert(v@.subrange(0, v@.len() as int) == v@);
                assert(ss[i as int] == self.sentences@[i as int]@);
                law_trim_unique(ss[i as int], text@, trimmed(ss[i as int]));
            }
            let ghost before = self.collected_view();
            self.collected.push(Spoken { index: i, text });
            proof {
                assert(self.collected_view() =~= before.push((i, trimmed(ss[i as int]))));
                lemma_collected_push(ss, before, i as int);
            }
        } else {
            proof {
                lemma_collected_extend(ss, self.collected_view(), i as int, i + 1);
            }
        }
        proof {
            lemma_next_spoken(ss, i + 1);
        }
        self.advance(i + 1)
    }
}

/// What checking the current sentence's file leaves: the sentence is kept
/// (trimmed) when its file was written, and the run moves to the next
/// non-blank sentence, which it queries, or finishes.
pub open spec fn written_to(before: SynthesisRun, written: bool, after: SynthesisRun, a: SynthesisAction) -> bool {
    &&& after.wf()
    &&& after.sentences_view() == before.sentences_view()
    &&& after.collected_view() == before.kept_after_check(written)
    &&& after.index_view() == next_spoken(before.sentences_view(), before.index_view() + 1)
    &&& after.stage_view() == if after.index_view() < after.sentences_view().len() {
        Stage::Querying
    } else {
        Stage::Finished
    }
    &&& after.steps_left() < before.steps_left()
    &&& action_for(after.sentences_view(), after.index_view(), after.stage_view(), a)
}

/// Once a sentence's file has been checked, the run either finishes, when no
/// non-blank sentence is left, or asks for the query of the next non-blank
/// sentence after it, with that sentence's own trimmed text: no sentence is
/// synthesised without its own query.
pub proof fn law_next_sentence_is_queried(before: SynthesisRun, written: bool, after: SynthesisRun, a: SynthesisAction)
    requires
        before.wf(),
        before.stage_view() == Stage::Checking,
        written_to(before, written, after, a),
    ensures
        (a is Finish) == (forall|k: int|
            before.index_view() < k < before.sentences_view().len() ==> all_white_space(
                #[trigger] before.sentences_view()[k],
            )),
        !(a is Finish) ==> (a matches SynthesisAction::Query { index, text } && before.index_view() < index
            < before.sentences_view().len() && !all_white_space(before.sentences_view()[index as int])
            && text@ == trimmed(before.sentences_view()[index as int])),
        !(a is Finish) ==> forall|k: int|
            before.index_view() < k < after.index_view() ==> all_white_space(#[trigger] before.sentences_view()[k]),
{
    let ss = before.sentences_view();
    lemma_next_spoken(ss, before.index_view() + 1);
    if after.index_view() < ss.len() {
        assert(!all_white_space(ss[after.index_view()]));
    }
}

/// The kept sentences stand before `upto`, in strictly increasing order, each
/// the trimmed, non-blank text of its sentence.
pub open spec fn collected_well_ordered(ss: Seq<Seq<char>>, c: Seq<(usize, Seq<char>)>, upto: int) -> bool {
    &&& forall|k: int| 0 <= k < c.len() ==> (#[trigger] c[k]).0 < upto && c[k].0 < ss.len()
    &&& forall|k: int| 0 <= k < c.len() ==> !all_white_space(ss[(#[trigger] c[k]).0 as int])
    &&& forall|k: int| 0 <= k < c.len() ==> (#[trigger] c[k]).1 == trimmed(ss[c[k].0 as int])
    &&& forall|k: int, l: int| 0 <= k < l < c.len() ==> (#[trigger] c[k]).0 < (#[trigger] c[l]).0
}

/// The action asked for matches the state: the query carries the trimmed text
/// of the current sentence, the others its index.
pub open spec fn action_for(ss: Seq<Seq<char>>, i: int, stage: Stage, a: SynthesisAction) -> bool {
    match stage {
        Stage::Querying => a matches SynthesisAction::Query { index, text } && index == i && text@ == trimmed(ss[i]),
        Stage::Synthesizing => a matches SynthesisAction::Synthesize { index } && index == i,
        Stage::Checking => a matches SynthesisAction::CheckWritten { index } && index == i,
        Stage::Finished => a is Finish,
    }
}

proof fn lemma_collected_extend(ss: Seq<Seq<char>>, c: Seq<(usize, Seq<char>)>, a: int, b: int)
    requires
        collected_well_ordered(ss, c, a),
        a <= b,
    ensures
        collected_well_ordered(ss, c, b),
{
}

proof fn lemma_collected_push(ss: Seq<Seq<char>>, c: Seq<(usize, Seq<char>)>, i: int)
    requires
        collected_well_ordered(ss, c, i),
        0 <= i < ss.len(),
        ss.len() <= usize::MAX,
        !all_white_space(ss[i]),
    ensures
        collected_well_ordered(ss, c.push((i as usize, trimmed(ss[i]))), i + 1),
{
    let d = c.push((i as usize, trimmed(ss[i])));
    assert forall|k: int, l: int| 0 <= k < l < d.len() implies (#[trigger] d[k]).0 < (#[trigger] d[l]).0 by {
        if l < c.len() {
            assert(d[k] == c[k] && d[l] == c[l]);
        } else {
            assert(d[k] == c[k]);
            assert(d[l].0 == i);
        }
    }
}

/// What a run keeps is an ordered selection of the inputs: increasing
/// positions, each the trimmed text of a non-blank input.
pub proof fn law_kept_sentences_ordered(run: &SynthesisRun, k: int, l: int)
    requires
        run.wf(),
        0 <= k < l < run.collected_view().len(),
    ensures
        run.collected_view()[k].0 < run.collected_view()[l].0,
        run.collected_view()[l].0 < run.sentences_view().len(),
        !all_white_space(run.sentences_view()[run.collected_view()[l].0 as int]),
        run.collected_view()[l].1 == trimmed(run.sentences_view()[run.collected_view()[l].0 as int]),
{
}

} // verus!
