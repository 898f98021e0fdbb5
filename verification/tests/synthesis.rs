use botcast::synthesis::{SynthesisAction, SynthesisRun};

fn texts(run: &SynthesisRun) -> Vec<(usize, String)> {
    run.collected().iter().map(|s| (s.index, s.text.clone())).collect()
}

#[test]
fn blank_sentences_are_skipped() {
    let (run, first) = SynthesisRun::new(vec![" ".to_string(), "".to_string()]);
    assert!(matches!(first, SynthesisAction::Finish));
    assert!(run.is_finished());
    assert!(texts(&run).is_empty());
}

#[test]
fn written_sentences_are_kept_trimmed_in_order() {
    let (mut run, a) = SynthesisRun::new(vec!["  one ".to_string(), "\n".to_string(), "two".to_string()]);
    match a {
        SynthesisAction::Query { index, text } => {
            assert_eq!(index, 0);
            assert_eq!(text, "one");
        }
        _ => panic!("expected a query"),
    }
    assert!(matches!(run.on_queried(true), SynthesisAction::Synthesize { index: 0 }));
    assert!(matches!(run.on_synthesized(true), SynthesisAction::CheckWritten { index: 0 }));
    match run.on_written(true) {
        SynthesisAction::Query { index, text } => {
            assert_eq!(index, 2);
            assert_eq!(text, "two");
        }
        _ => panic!("expected the next query"),
    }
    run.on_queried(true);
    run.on_synthesized(true);
    assert!(matches!(run.on_written(true), SynthesisAction::Finish));
    assert_eq!(texts(&run), vec![(0, "one".to_string()), (2, "two".to_string())]);
}

#[test]
fn failed_sentences_are_dropped() {
    let (mut run, _) = SynthesisRun::new(vec!["a".to_string(), "b".to_string(), "c".to_string()]);
    assert!(matches!(run.on_queried(false), SynthesisAction::Query { index: 1, .. }));
    run.on_queried(true);
    assert!(matches!(run.on_synthesized(false), SynthesisAction::Query { index: 2, .. }));
    run.on_queried(true);
    run.on_synthesized(true);
    assert!(matches!(run.on_written(false), SynthesisAction::Finish));
    assert!(run.is_finished());
    assert!(texts(&run).is_empty());
}
