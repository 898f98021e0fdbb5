use vstd::prelude::*;
use crate::text::{chars_of, count_spoken, count_spoken_pieces, split_breaks};
use crate::urn::{is_urn, is_urn_of, parse_urn, law_urn_parts_unique, Urn, UrnError};

verus! {

/// One section of an evaluated script.
pub enum Section {
    /// A line read by the speaker named by the URN `speaker`.
    Serif { speaker: String, text: String },
}

/// An evaluated script: a title and the sections read in order.
pub struct Manuscript {
    pub title: String,
    pub sections: Vec<Section>,
}

/// One utterance to synthesise: which generator, which of its voices, and the text.
pub struct Sentence {
    pub generator: String,
    pub speaker_id: String,
    pub text: String,
}

impl Section {
    /// The speaker URN and the text of the section.
    pub open spec fn parts(self) -> (Seq<char>, Seq<char>) {
        match self {
            Section::Serif { speaker, text } => (speaker@, text@),
        }
    }
}

impl Sentence {
    pub open spec fn view_tuple(self) -> (Seq<char>, Seq<char>, Seq<char>) {
        (self.generator@, self.speaker_id@, self.text@)
    }
}

/// The resource and id a URN text names (meaningful when `is_urn(s)`).
pub open spec fn urn_parts(s: Seq<char>) -> (Seq<char>, Seq<char>) {
    choose|r: Seq<char>, id: Seq<char>| is_urn_of(s, r, id)
}

/// The sentences of one section: the whole text of the section, once for each
/// piece between sentence breaks that is not only white space, read by the
/// generator and voice the speaker URN names.
pub open spec fn section_sentences(speaker: Seq<char>, text: Seq<char>) -> Seq<(Seq<char>, Seq<char>, Seq<char>)> {
    Seq::new(count_spoken(split_breaks(text)), |i: int| (urn_parts(speaker).0, urn_parts(speaker).1, text))
}

/// The sentences of the sections in order, or `None` when some speaker is not a URN.
pub open spec fn plan_of(sections: Seq<(Seq<char>, Seq<char>)>) -> Option<Seq<(Seq<char>, Seq<char>, Seq<char>)>>
    decreases sections.len(),
{
    if sections.len() == 0 {
        Some(Seq::empty())
    } else {
        match plan_of(sections.drop_last()) {
            Some(before) => if is_urn(sections.last().0) {
                Some(before + section_sentences(sections.last().0, sections.last().1))
            } else {
                None
            },
            None => None,
        }
    }
}

pub open spec fn section_parts(sections: Seq<Section>) -> Seq<(Seq<char>, Seq<char>)> {
    sections.map_values(|s: Section| s.parts())
}

/// Index of the first section whose speaker is not a URN.
pub open spec fn first_bad_speaker(sections: Seq<(Seq<char>, Seq<char>)>, i: int) -> bool {
    &&& 0 <= i < sections.len()
    &&& !is_urn(sections[i].0)
    &&& forall|j: int| 0 <= j < i ==> is_urn(#[trigger] sections[j].0)
}

proof fn lemma_plan_prefix(sections: Seq<(Seq<char>, Seq<char>)>, k: int)
    requires
        0 <= k < sections.len(),
        plan_of(sections.take(k)) is Some,
        is_urn(sections[k].0),
    ensures
        plan_of(sections.take(k + 1)) == Some(
            plan_of(sections.take(k)).unwrap() + section_sentences(sections[k].0, sections[k].1),
        ),
{
    assert(sections.take(k + 1).drop_last() =~= sections.take(k));
}

proof fn lemma_plan_none_extends(sections: Seq<(Seq<char>, Seq<char>)>, k: int)
    requires
        0 <= k <= sections.len(),
        plan_of(sections.take(k)) is None,
    ensures
        plan_of(sections) is None,
    decreases sections.len() - k,
{
    if k < sections.len() {
        assert(sections.take(k + 1).drop_last() =~= sections.take(k));
        lemma_plan_none_extends(sections, k + 1);
    } else {
        assert(sections.take(k) =~= sections);
    }
}

/// The utterances of a manuscript, in reading order.
///
/// Every section's speaker must be a URN `urn:<generator>:<voice>`; the first
/// one that is not makes the whole plan fail with that speaker's text. A
/// section contributes its whole text once for each non-blank piece between
/// line feeds and `。`.
pub fn plan_sentences(manuscript: &Manuscript) -> (res: Result<Vec<Sentence>, UrnError>)
    ensures
        match res {
            Ok(v) => plan_of(section_parts(manuscript.sections@)) == Some(
                v@.map_values(|s: Sentence| s.view_tuple()),
            ),
            Err(e) => plan_of(section_parts(manuscript.sections@)) is None && exists|i: int|
                first_bad_speaker(section_parts(manuscript.sections@), i) && e.urn_text()
                    == section_parts(manuscript.sections@)[i].0,
        },
{
    let ghost parts = section_parts(manuscript.sections@);
    let mut out: Vec<Sentence> = Vec::new();
    let mut k: usize = 0;
    proof {
        assert(parts.take(0) =~= Seq::<(Seq<char>, Seq<char>)>::empty());
    }
    while k < manuscript.sections.len()
        invariant
            k <= manuscript.sections.len(),
            parts == section_parts(manuscript.sections@),
            parts.len() == manuscript.sections.len(),
            plan_of(parts.take(k as int)) == Some(out@.map_values(|s: Sentence| s.view_tuple())),
            forall|j: int| 0 <= j < k ==> is_urn(#[trigger] parts[j].0),
        decreases manuscript.sections.len() - k,
    {
        let section = &manuscript.sections[k];
        assert(parts[k as int] == section.parts());
        match section {
            Section::Serif { speaker, text } => {
                let speaker_urn = Urn(speaker.clone());
                match parse_urn(&speaker_urn) {
                    Ok((resource, speaker_id)) => {
                        let cs = chars_of(text.as_str());
                        let n = count_spoken_pieces(&cs);
                        let ghost before = out@.map_values(|s: Sentence| s.view_tuple());
                        let mut m: usize = 0;
                        proof {
                            assert(is_urn(speaker@));
                            let (r, id) = urn_parts(speaker@);
                            law_urn_parts_unique(speaker@, r, id, resource@, speaker_id@);
                            assert(before + section_sentences(speaker@, text@).take(0) =~= before);
                        }
                        while m < n
                            invariant
                                m <= n,
                                n == count_spoken(split_breaks(text@)),
                                urn_parts(speaker@) == (resource@, speaker_id@),
                                out@.map_values(|s: Sentence| s.view_tuple()) == before + section_sentences(
                                    speaker@,
                                    text@,
                                ).take(m as int),
                            decreases n - m,
                        {
                            let sentence = Sentence {
                                generator: resource.clone(),
                                speaker_id: speaker_id.clone(),
                                text: text.clone(),
                            };
                            let ghost old_out = out@;
                            let ghost tup = sentence.view_tuple();
                            assert(tup == (resource@, speaker_id@, text@));
                            out.push(sentence);
                            proof {
                                assert(out@ == old_out.push(sentence));
                                assert(out@.map_values(|s: Sentence| s.view_tuple()) =~= old_out.map_values(
                                    |s: Sentence| s.view_tuple(),
                                ).push(tup));
                                assert(section_sentences(speaker@, text@).take(m + 1) =~= section_sentences(
                                    speaker@,
                                    text@,
                                ).take(m as int).push((resource@, speaker_id@, text@)));
                                assert(out@.map_values(|s: Sentence| s.view_tuple()) =~= before
                                    + section_sentences(speaker@, text@).take(m + 1));
                            }
                            m += 1;
                        }
                        proof {
                            assert(section_sentences(speaker@, text@).take(n as int) =~= section_sentences(
                                speaker@,
                                text@,
                            ));
                            lemma_plan_prefix(parts, k as int);
                        }
                    },
                    Err(e) => {
                        proof {
                            assert(!is_urn(parts[k as int].0));
                            assert(first_bad_speaker(parts, k as int));
                            assert(parts.take(k + 1).drop_last() =~= parts.take(k as int));
                            lemma_plan_none_extends(parts, k + 1);
                        }
                        return Err(e);
                    },
                }
            },
        }
        k += 1;
    }
    proof {
        assert(parts.take(k as int) =~= parts);
    }
    Ok(out)
}

} // verus!
