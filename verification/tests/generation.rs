use botcast::audio::{AudioError, GeneratorKind};
use botcast::generation::{GenerateAction, GenerateError, GenerateRun};
use botcast::manuscript::Sentence;

fn sentence(generator: &str, speaker: &str, text: &str) -> Sentence {
    Sentence { generator: generator.to_string(), speaker_id: speaker.to_string(), text: text.to_string() }
}

fn kept(run: &GenerateRun) -> Vec<(usize, String)> {
    run.kept().iter().map(|s| (s.index, s.text.clone())).collect()
}

#[test]
fn nothing_to_generate_finishes_at_once() {
    let (run, a) = GenerateRun::new(vec![]);
    assert!(matches!(a, GenerateAction::Finish));
    assert!(run.is_finished());
}

#[test]
fn generated_files_are_kept_in_order() {
    let (mut run, a) = GenerateRun::new(vec![sentence("voicevox", "3", "a"), sentence("voicevox", "1", "b")]);
    match a {
        GenerateAction::Generate { index, kind, speaker_id, text } => {
            assert_eq!(index, 0);
            assert!(kind == GeneratorKind::VoiceVox);
            assert_eq!(speaker_id, "3");
            assert_eq!(text, "a");
        }
        _ => panic!("expected a generation"),
    }
    assert!(matches!(run.on_generated(true), GenerateAction::Write { index: 0 }));
    assert!(matches!(run.on_written(true), GenerateAction::CheckWritten { index: 0 }));
    assert!(matches!(run.on_checked(false), GenerateAction::Generate { index: 1, .. }));
    run.on_generated(true);
    run.on_written(true);
    assert!(matches!(run.on_checked(true), GenerateAction::Finish));
    assert_eq!(kept(&run), vec![(1, "b".to_string())]);
}

#[test]
fn an_unknown_generator_stops_the_run() {
    let (mut run, _) = GenerateRun::new(vec![sentence("voicevox", "3", "a"), sentence("espeak", "1", "b")]);
    run.on_generated(true);
    run.on_written(true);
    match run.on_checked(true) {
        GenerateAction::Fail { error: GenerateError::Generator(AudioError::UnsupportedGenerator { resource }) } => {
            assert_eq!(resource, "espeak")
        }
        _ => panic!("an unknown generator was accepted"),
    }
    assert_eq!(kept(&run), vec![(0, "a".to_string())]);
}

#[test]
fn a_failed_generation_stops_the_run() {
    let (mut run, _) = GenerateRun::new(vec![sentence("voicevox", "3", "a")]);
    assert!(matches!(run.on_generated(false), GenerateAction::Fail { error: GenerateError::GenerateFailed }));
    let (mut run, _) = GenerateRun::new(vec![sentence("voicevox", "3", "a")]);
    run.on_generated(true);
    assert!(matches!(run.on_written(false), GenerateAction::Fail { error: GenerateError::WriteFailed }));
}
