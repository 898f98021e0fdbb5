use vstd::prelude::*;
use crate::audio::{resolve_generator, voicevox_resource, AudioError, GeneratorKind};
use crate::manuscript::Sentence;
use crate::synthesis::Spoken;

verus! {

/// Why generating the audio of a manuscript stopped.
pub enum GenerateError {
    /// A sentence names a generator that is not known.
    Generator(AudioError),
    /// The generator failed on a sentence.
    GenerateFailed,
    /// The audio of a sentence could not be written to its file.
    WriteFailed,
}

/// What the driver of a generation run must do next.
pub enum GenerateAction {
    /// Ask the generator `kind` for the audio of `text` in voice `speaker_id`
    /// (sentence `index`).
    Generate { index: usize, kind: GeneratorKind, speaker_id: String, text: String },
    /// Write the audio just generated to the file of sentence `index`.
    Write { index: usize },
    /// Report whether the file of sentence `index` exists.
    CheckWritten { index: usize },
    /// Every sentence has been handled; the kept sentences are the result.
    Finish,
    /// The run stopped with an error.
    Fail { error: GenerateError },
}

/// Where a generation run stands within the current sentence.
#[derive(PartialEq, Eq, Structural, Clone, Copy)]
pub enum GenerateStage {
    Generating,
    Writing,
    Checking,
    Finished,
    Failed,
}

/// The decisions of generating the audio of planned sentences one by one, as
/// the manuscript's audio is made: each sentence's generator must be known,
/// generating and writing must succeed (the first failure stops the run), and
/// a sentence whose file exists afterwards is kept with its text.
pub struct GenerateRun {
    sentences: Vec<Sentence>,
    index: usize,
    stage: GenerateStage,
    kept: Vec<Spoken>,
}

/// The action that fits a run over `ss` standing on sentence `i` in `stage`.
pub open spec fn generate_action_for(
    ss: Seq<(Seq<char>, Seq<char>, Seq<char>)>,
    i: int,
    stage: GenerateStage,
    a: GenerateAction,
) -> bool {
    match stage {
        GenerateStage::Generating => a matches GenerateAction::Generate { index, kind, speaker_id, text } && index
            == i && kind == GeneratorKind::VoiceVox && speaker_id@ == ss[i].1 && text@ == ss[i].2,
        GenerateStage::Writing => a matches GenerateAction::Write { index } && index == i,
        GenerateStage::Checking => a matches GenerateAction::CheckWritten { index } && index == i,
        GenerateStage::Finished => a is Finish,
        GenerateStage::Failed => a is Fail,
    }
}

/// The kept sentences stand before `upto`, in increasing order, each with
/// the text of its sentence.
pub open spec fn kept_in_order(ss: Seq<(Seq<char>, Seq<char>, Seq<char>)>, c: Seq<(usize, Seq<char>)>, upto: int) -> bool {
    &&& forall|k: int| 0 <= k < c.len() ==> (#[trigger] c[k]).0 < upto && c[k].0 < ss.len()
    &&& forall|k: int| 0 <= k < c.len() ==> (#[trigger] c[k]).1 == ss[c[k].0 as int].2
    &&& forall|k: int, l: int| 0 <= k < l < c.len() ==> (#[trigger] c[k]).0 < (#[trigger] c[l]).0
}

impl GenerateRun {
    pub closed spec fn sentences_view(&self) -> Seq<(Seq<char>, Seq<char>, Seq<char>)> {
        self.sentences@.map_values(|s: Sentence| s.view_tuple())
    }

    pub closed spec fn index_view(&self) -> int {
        self.index as int
    }

    pub closed spec fn stage_view(&self) -> GenerateStage {
        self.stage
    }

    pub closed spec fn kept_view(&self) -> Seq<(usize, Seq<char>)> {
        self.kept@.map_values(|s: Spoken| s.view_pair())
    }

    /// The run's invariant: it stands on a sentence whose generator is known,
    /// or it has finished or failed; it has kept only earlier sentences, in order.
    pub open spec fn wf(&self) -> bool {
        let ss = self.sentences_view();
        let i = self.index_view();
        &&& 0 <= i <= ss.len()
        &&& (self.stage_view() == GenerateStage::Finished) == (i == ss.len() && self.stage_view()
            != GenerateStage::Failed)
        &&& (self.stage_view() != GenerateStage::Finished && self.stage_view() != GenerateStage::Failed) ==> (i
            < ss.len() && ss[i].0 == voicevox_resource())
        &&& kept_in_order(ss, self.kept_view(), i)
    }

    /// The sentences kept so far.
    pub fn kept(&self) -> (c: &Vec<Spoken>)
        ensures
            c@.map_values(|s: Spoken| s.view_pair()) == self.kept_view(),
    {
        &self.kept
    }

    /// The run has finished every sentence.
    pub fn is_finished(&self) -> (b: bool)
        ensures
            b == (self.stage_view() == GenerateStage::Finished),
    {
        self.stage == GenerateStage::Finished
    }

    /// Moves to sentence `from`: the end, an unknown generator, or the next generation.
    fn advance(&mut self, from: usize) -> (a: GenerateAction)
        requires
            from <= old(self).sentences@.len(),
            kept_in_order(old(self).sentences_view(), old(self).kept_view(), from as int),
        ensures
            final(self).wf(),
            final(self).sentences_view() == old(self).sentences_view(),
            final(self).kept_view() == old(self).kept_view(),
            final(self).index_view() == from,
            from == old(self).sentences_view().len() ==> final(self).stage_view() == GenerateStage::Finished,
            from < old(self).sentences_view().len() ==> if old(self).sentences_view()[from as int].0
                == voicevox_resource() {
                final(self).stage_view() == GenerateStage::Generating
            } else {
                final(self).stage_view() == GenerateStage::Failed && (a matches GenerateAction::Fail {
                    error: GenerateError::Generator(AudioError::UnsupportedGenerator { resource }),
                } && resource@ == old(self).sentences_view()[from as int].0)
            },
            generate_action_for(final(self).sentences_view(), final(self).index_view(), final(self).stage_view(), a),
    {
        self.index = from;
        if from == self.sentences.len() {
            self.stage = GenerateStage::Finished;
            return GenerateAction::Finish;
        }
        proof {
            assert(self.sentences_view()[from as int] == self.sentences@[from as int].view_tuple());
        }
        match resolve_generator(self.sentences[from].generator.as_str()) {
            Err(e) => {
                self.stage = GenerateStage::Failed;
                GenerateAction::Fail { error: GenerateError::Generator(e) }
            },
            Ok(kind) => {
                self.stage = GenerateStage::Generating;
                GenerateAction::Generate {
                    index: from,
                    kind,
                    speaker_id: self.sentences[from].speaker_id.clone(),
                    text: self.sentences[from].text.clone(),
                }
            },
        }
    }

    /// Starts a run over the planned sentences and says what to do first.
    pub fn new(sentences: Vec<Sentence>) -> (r: (GenerateRun, GenerateAction))
        ensures
            r.0.wf(),
            r.0.sentences_view() == sentences@.map_values(|s: Sentence| s.view_tuple()),
            r.0.kept_view() == Seq::<(usize, Seq<char>)>::empty(),
            r.0.index_view() == 0,
            r.0.stage_view() == if r.0.index_view() == r.0.sentences_view().len() {
                GenerateStage::Finished
            } else if r.0.sentences_view()[r.0.index_view()].0 == voicevox_resource() {
                GenerateStage::Generating
            } else {
                GenerateStage::Failed
            },
            sentences@.len() > 0 && sentences@[0].generator@ != voicevox_resource() ==> (r.1 matches GenerateAction::Fail {
                error: GenerateError::Generator(AudioError::UnsupportedGenerator { resource }),
            } && resource@ == sentences@[0].generator@),
            generate_action_for(r.0.sentences_view(), r.0.index_view(), r.0.stage_view(), r.1),
    {
        let mut run = GenerateRun { sentences, index: 0, stage: GenerateStage::Finished, kept: Vec::new() };
        proof {
            assert(run.kept_view() =~= Seq::<(usize, Seq<char>)>::empty());
        }
        let a = run.advance(0);
        proof {
            if run.sentences@.len() > 0 {
                assert(run.sentences_view()[0] == run.sentences@[0].view_tuple());
            }
        }
        (run, a)
    }

    /// The generator answered (`ok`) or failed; a failure stops the run.
    pub fn on_generated(&mut self, ok: bool) -> (a: GenerateAction)
        requires
            old(self).wf(),
            old(self).stage_view() == GenerateStage::Generating,
        ensures
            final(self).wf(),
            final(self).sentences_view() == old(self).sentences_view(),
            final(self).kept_view() == old(self).kept_view(),
            final(self).index_view() == old(self).index_view(),
            ok ==> final(self).stage_view() == GenerateStage::Writing,
            !ok ==> final(self).stage_view() == GenerateStage::Failed && a matches GenerateAction::Fail {
                error: GenerateError::GenerateFailed,
            },
            generate_action_for(final(self).sentences_view(), final(self).index_view(), final(self).stage_view(), a),
    {
        if ok {
            self.stage = GenerateStage::Writing;
            GenerateAction::Write { index: self.index }
        } else {
            self.stage = GenerateStage::Failed;
            GenerateAction::Fail { error: GenerateError::GenerateFailed }
        }
    }

    /// The audio was written (`ok`) or writing failed; a failure stops the run.
    pub fn on_written(&mut self, ok: bool) -> (a: GenerateAction)
        requires
            old(self).wf(),
            old(self).stage_view() == GenerateStage::Writing,
        ensures
            final(self).wf(),
            final(self).sentences_view() == old(self).sentences_view(),
            final(self).kept_view() == old(self).kept_view(),
            final(self).index_view() == old(self).index_view(),
            ok ==> final(self).stage_view() == GenerateStage::Checking,
            !ok ==> final(self).stage_view() == GenerateStage::Failed && a matches GenerateAction::Fail {
                error: GenerateError::WriteFailed,
            },
            generate_action_for(final(self).sentences_view(), final(self).index_view(), final(self).stage_view(), a),
    {
        if ok {
            self.stage = GenerateStage::Checking;
            GenerateAction::CheckWritten { index: self.index }
        } else {
            self.stage = GenerateStage::Failed;
            GenerateAction::Fail { error: GenerateError::WriteFailed }
        }
    }

    /// Whether the file of the current sentence exists: if it does, the
    /// sentence is kept with its text; the run moves to the next sentence.
    pub fn on_checked(&mut self, found: bool) -> (a: GenerateAction)
        requires
            old(self).wf(),
            old(self).stage_view() == GenerateStage::Checking,
        ensures
            checked_to(*old(self), found, *final(self), a),
    {
        let ghost ss = self.sentences_view();
        let i = self.index;
        assert(ss.len() == self.sentences@.len());
        assert(i < self.sentences.len());
        if found {
            let text = self.sentences[i].text.clone();
            let ghost before = self.kept_view();
            proof {
                assert(ss[i as int] == self.sentences@[i as int].view_tuple());
            }
            self.kept.push(Spoken { index: i, text });
            proof {
                assert(self.kept_view() =~= before.push((i, ss[i as int].2)));
                let d = self.kept_view();
                assert forall|k: int, l: int| 0 <= k < l < d.len() implies (#[trigger] d[k]).0 < (
                #[trigger] d[l]).0 by {
                    if l < before.len() {
                        assert(d[k] == before[k] && d[l] == before[l]);
                    } else {
                        assert(d[k] == before[k]);
                    }
                }
            }
        }
        self.advance(i + 1)
    }
}

/// The stage a run takes up on reaching sentence `index_view()`: finished
/// past the last one, generating when the sentence's generator is known,
/// failed when it is not.
pub open spec fn arrival_stage(run: GenerateRun) -> GenerateStage {
    if run.index_view() == run.sentences_view().len() {
        GenerateStage::Finished
    } else if run.sentences_view()[run.index_view()].0 == voicevox_resource() {
        GenerateStage::Generating
    } else {
        GenerateStage::Failed
    }
}

/// What checking the current sentence's file leaves: the sentence is kept
/// with its text when its file exists, and the run moves to the next
/// sentence.
pub open spec fn checked_to(before: GenerateRun, found: bool, after: GenerateRun, a: GenerateAction) -> bool {
    &&& after.wf()
    &&& after.sentences_view() == before.sentences_view()
    &&& after.kept_view() == if found {
        before.kept_view().push((before.index_view() as usize, before.sentences_view()[before.index_view()].2))
    } else {
        before.kept_view()
    }
    &&& after.index_view() == before.index_view() + 1
    &&& after.stage_view() == arrival_stage(after)
    &&& generate_action_for(after.sentences_view(), after.index_view(), after.stage_view(), a)
}

/// Once a sentence's file has been checked, the next sentence gets its own
/// generation, from its own voice and text, when its generator is known; the
/// run fails on an unknown generator and finishes after the last sentence.
pub proof fn law_next_sentence_is_generated(before: GenerateRun, found: bool, after: GenerateRun, a: GenerateAction)
    requires
        before.wf(),
        before.stage_view() == GenerateStage::Checking,
        checked_to(before, found, after, a),
    ensures
        before.index_view() + 1 == before.sentences_view().len() ==> a is Finish,
        before.index_view() + 1 < before.sentences_view().len() && before.sentences_view()[before.index_view()
            + 1].0 == voicevox_resource() ==> (a matches GenerateAction::Generate { index, speaker_id, text, .. }
            && index == before.index_view() + 1 && speaker_id@ == before.sentences_view()[index as int].1 && text@
            == before.sentences_view()[index as int].2),
        before.index_view() + 1 < before.sentences_view().len() && before.sentences_view()[before.index_view()
            + 1].0 != voicevox_resource() ==> a is Fail,
{
}

/// What a generation run keeps is an ordered selection of the sentences:
/// increasing positions, each with the text of its sentence.
pub proof fn law_generated_sentences_ordered(run: &GenerateRun, k: int, l: int)
    requires
        run.wf(),
        0 <= k < l < run.kept_view().len(),
    ensures
        run.kept_view()[k].0 < run.kept_view()[l].0,
        run.kept_view()[l].0 < run.sentences_view().len(),
        run.kept_view()[l].1 == run.sentences_view()[run.kept_view()[l].0 as int].2,
{
}

} // verus!
