use botcast::text::{chars_of, count_spoken_pieces, split_inclusive_sentences, trim};

#[test]
fn trim_removes_unicode_white_space() {
    assert_eq!(trim("  hello \t\n"), "hello");
    assert_eq!(trim("\u{3000}こんにちは\u{3000}"), "こんにちは");
    assert_eq!(trim("   "), "");
    assert_eq!(trim(""), "");
    assert_eq!(trim("a b"), "a b");
}

#[test]
fn chars_of_keeps_every_char() {
    assert_eq!(chars_of("aé。"), vec!['a', 'é', '。']);
}

#[test]
fn split_inclusive_keeps_breaks_at_piece_ends() {
    let v = chars_of("おはよう。今日は\n晴れ");
    assert_eq!(split_inclusive_sentences(&v), vec!["おはよう。", "今日は\n", "晴れ"]);
}

#[test]
fn split_inclusive_of_empty_text_is_empty() {
    assert!(split_inclusive_sentences(&chars_of("")).is_empty());
}

#[test]
fn split_inclusive_pieces_join_back_to_the_text() {
    let text = "。。a\n\nb。";
    let pieces = split_inclusive_sentences(&chars_of(text));
    assert_eq!(pieces.concat(), text);
    assert_eq!(pieces, vec!["。", "。", "a\n", "\n", "b。"]);
}

#[test]
fn count_spoken_pieces_skips_blank_pieces() {
    assert_eq!(count_spoken_pieces(&chars_of("a。 。b\n\n")), 2);
    assert_eq!(count_spoken_pieces(&chars_of("")), 0);
    assert_eq!(count_spoken_pieces(&chars_of("abc")), 1);
}
