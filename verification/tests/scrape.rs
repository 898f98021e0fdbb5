use botcast::scrape::{content_file_text, episode_found, scraped_sentences, ScrapeError};

#[test]
fn content_file_starts_with_the_title() {
    assert_eq!(content_file_text("Title", "body"), "# Title\n\nbody");
}

#[test]
fn scraped_sentences_keep_their_breaks() {
    assert_eq!(scraped_sentences("一。二\n三").ok(), Some(vec!["一。".to_string(), "二\n".to_string(), "三".to_string()]));
}

#[test]
fn an_empty_page_has_no_sentences() {
    assert!(scraped_sentences("").err() == Some(ScrapeError::SentencesEmpty));
}

#[test]
fn a_missing_episode_is_refused() {
    assert!(episode_found::<u8>(None).err() == Some(ScrapeError::EpisodeNotFound));
    assert_eq!(episode_found(Some(3u8)).ok(), Some(3));
}

#[test]
fn any_text_gives_sentences() {
    assert_eq!(scraped_sentences(" ").ok(), Some(vec![" ".to_string()]));
    assert_eq!(scraped_sentences("no break").ok(), Some(vec!["no break".to_string()]));
}
