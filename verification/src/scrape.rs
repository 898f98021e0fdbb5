use vstd::prelude::*;
use crate::text::{chars_of, split_inclusive_breaks, split_inclusive_sentences, law_split_inclusive_partitions};

verus! {

/// Why scraping a page into sentences failed.
#[derive(PartialEq, Eq, Structural, Clone, Copy)]
pub enum ScrapeError {
    /// `Episode not found`
    EpisodeNotFound,
    /// `Sentences is empty`: the page gave no text.
    SentencesEmpty,
}

/// The saved page: a `# <title>` heading, a blank line, then the content.
pub open spec fn content_document(title: Seq<char>, content: Seq<char>) -> Seq<char> {
    seq!['#', ' '] + title + seq!['\n', '\n'] + content
}

/// The text saved for a scraped page.
pub fn content_file_text(title: &str, content: &str) -> (text: String)
    ensures
        text@ == content_document(title@, content@),
{
    let mut text = "# ".to_owned();
    text.append(title);
    text.append("\n\n");
    text.append(content);
    proof {
        reveal_strlit("# ");
        reveal_strlit("\n\n");
        assert("# "@ =~= seq!['#', ' ']);
        assert("\n\n"@ =~= seq!['\n', '\n']);
    }
    text
}

/// The sentences of a scraped page: the content cut after each `。` and each
/// line break, each piece keeping its break; a page with no text is refused.
pub fn scraped_sentences(content: &str) -> (r: Result<Vec<String>, ScrapeError>)
    ensures
        content@.len() == 0 <==> r == Err::<Vec<String>, ScrapeError>(ScrapeError::SentencesEmpty),
        content@.len() > 0 ==> r is Ok,
        r matches Ok(v) ==> v@.map_values(|p: String| p@) == split_inclusive_breaks(content@),
{
    let chars = chars_of(content);
    let sentences = split_inclusive_sentences(&chars);
    proof {
        law_split_inclusive_partitions(content@);
    }
    if sentences.len() == 0 {
        Err(ScrapeError::SentencesEmpty)
    } else {
        Ok(sentences)
    }
}

/// The episode a page is scraped for, which must exist.
pub fn episode_found<T>(found: Option<T>) -> (r: Result<T, ScrapeError>)
    ensures
        match found {
            Some(e) => r == Ok::<T, ScrapeError>(e),
            None => r == Err::<T, ScrapeError>(ScrapeError::EpisodeNotFound),
        },
{
    match found {
        Some(e) => Ok(e),
        None => Err(ScrapeError::EpisodeNotFound),
    }
}

} // verus!
