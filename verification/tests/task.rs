use botcast::task::{
    job_for, keep_workdir, Args, BatchAction, BatchFailure, BatchOutcome, BatchRound, Job, TaskStatus,
};

#[test]
fn jobs_follow_the_arguments() {
    assert!(job_for(1, Args::GenerateAudio { episode_id: 2 }) == Job::GenerateAudio { task_id: 1, episode_id: 2 });
    assert!(job_for(1, Args::EvaluateScript { script_id: 3 }) == Job::EvaluateScript { script_id: 3 });
    assert!(job_for(1, Args::NewEpisode { pre_episode_id: 4 }) == Job::NewEpisode { pre_episode_id: 4 });
}

#[test]
fn an_empty_queue_ends_the_round() {
    let (mut round, a) = BatchRound::new();
    assert!(a == BatchAction::Pop);
    assert!(round.on_popped(None) == BatchAction::Stop { outcome: BatchOutcome::Idle });
}

#[test]
fn a_task_runs_and_is_recorded() {
    let (mut round, _) = BatchRound::new();
    assert!(round.on_popped(Some(9)) == BatchAction::Save { id: 9, status: TaskStatus::Running });
    assert!(round.on_saved(true) == BatchAction::DecodeArgs);
    let job = Job::EvaluateScript { script_id: 3 };
    assert!(round.on_decoded(Some(Args::EvaluateScript { script_id: 3 })) == BatchAction::Execute { job });
    assert!(round.on_executed(false) == BatchAction::Save { id: 9, status: TaskStatus::Failed });
    assert!(round.on_saved(true) == BatchAction::Stop { outcome: BatchOutcome::Ran { id: 9, status: TaskStatus::Failed } });
}

#[test]
fn a_successful_job_completes_the_task() {
    let (mut round, _) = BatchRound::new();
    round.on_popped(Some(1));
    round.on_saved(true);
    round.on_decoded(Some(Args::GenerateAudio { episode_id: 2 }));
    assert!(round.on_executed(true) == BatchAction::Save { id: 1, status: TaskStatus::Completed });
}

#[test]
fn unreadable_arguments_abort_the_round() {
    let (mut round, _) = BatchRound::new();
    round.on_popped(Some(1));
    round.on_saved(true);
    assert!(round.on_decoded(None) == BatchAction::Stop { outcome: BatchOutcome::Aborted { failure: BatchFailure::ArgsInvalid } });
}

#[test]
fn a_failed_save_aborts_the_round() {
    let (mut round, _) = BatchRound::new();
    round.on_popped(Some(1));
    assert!(round.on_saved(false) == BatchAction::Stop { outcome: BatchOutcome::Aborted { failure: BatchFailure::SaveFailed } });
}

#[test]
fn keep_workdir_parses_a_bool() {
    assert_eq!(keep_workdir(None), Some(false));
    assert_eq!(keep_workdir(Some("true")), Some(true));
    assert_eq!(keep_workdir(Some("false")), Some(false));
    assert_eq!(keep_workdir(Some("yes")), None);
    assert_eq!(keep_workdir(Some("TRUE")), None);
}
