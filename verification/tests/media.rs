use botcast::audio::{
    concat_list, concat_outcome, ffmpeg_concat_args, resolve_generator, wav_file_name, AudioError, GeneratorKind,
};
use botcast::fmt::{decimal, digit};
use botcast::srt::{subtitle_timeline, subtitles_for, Clip};

fn clip(ms: u128, text: &str) -> Clip {
    Clip { duration_nanos: ms * 1_000_000, text: text.to_string() }
}

#[test]
fn decimal_writes_digits() {
    assert_eq!(decimal(0), "0");
    assert_eq!(decimal(1234567890), "1234567890");
    assert_eq!(decimal(u64::MAX), u64::MAX.to_string());
    assert_eq!(digit(7), '7');
}

#[test]
fn timeline_places_clips_back_to_back() {
    let t = subtitle_timeline(&vec![clip(1500, "a"), clip(2000, "b")]);
    assert_eq!(t.len(), 2);
    assert_eq!((t[0].index, t[0].start_ms, t[0].end_ms), (0, 0, 1500));
    assert_eq!((t[1].index, t[1].start_ms, t[1].end_ms), (1, 1500, 3500));
    assert_eq!(t[1].text, "b");
}

#[test]
fn subtitles_render_as_srt() {
    let srt = subtitles_for(&vec![clip(1500, "hello"), clip(3_725_250, "world")]);
    assert_eq!(
        srt,
        "0\n00:00:00,000 --> 00:00:01,500\nhello\n\n1\n00:00:01,500 --> 01:02:06,750\nworld"
    );
    assert_eq!(subtitles_for(&vec![]), "");
}

#[test]
fn only_voicevox_generates_audio() {
    assert!(matches!(resolve_generator("voicevox"), Ok(GeneratorKind::VoiceVox)));
    match resolve_generator("espeak") {
        Err(AudioError::UnsupportedGenerator { resource }) => assert_eq!(resource, "espeak"),
        _ => panic!("an unknown generator was accepted"),
    }
}

#[test]
fn wav_files_are_numbered() {
    assert_eq!(wav_file_name(0), "0.wav");
    assert_eq!(wav_file_name(12), "12.wav");
}

#[test]
fn concat_list_names_each_file() {
    let text = concat_list(&vec!["0.wav".to_string(), "1.wav".to_string()]);
    assert_eq!(text, "file '0.wav'\nfile '1.wav'");
}

#[test]
fn ffmpeg_is_asked_for_an_mp3() {
    let args = ffmpeg_concat_args("list.txt", "out.mp3");
    assert_eq!(
        args,
        vec!["-y", "-f", "concat", "-i", "list.txt", "-vn", "-ar", "44100", "-ac", "2", "-b:a", "192k", "out.mp3"]
    );
}

#[test]
fn ffmpeg_failures_carry_stderr() {
    assert!(concat_outcome(true, b"ignored".to_vec()).is_ok());
    match concat_outcome(false, "boom".as_bytes().to_vec()) {
        Err(AudioError::ConcatFailed { stderr }) => assert_eq!(stderr, "boom"),
        _ => panic!("failure lost"),
    }
    assert!(matches!(concat_outcome(false, vec![0xff, 0xfe]), Err(AudioError::StderrNotUtf8)));
}
