use botcast::episode::{
    asset_path, content_type, next_episode_task, podcast_cron, public_url, successor_episode, task_at,
    with_published_assets, Asset, Episode, EpisodeError, NewEpisodeAction, NewEpisodeFlow,
};
use botcast::task::{Args, TaskStatus, UtcTime};

fn episode() -> Episode {
    Episode {
        id: 0x0123_4567_89ab_cdef_0123_4567_89ab_cdef,
        user_id: 7,
        title: "first".to_string(),
        podcast_id: 8,
        script_id: 9,
        audio_url: Some("a".to_string()),
        srt_url: None,
        created_at: UtcTime { secs: 1, nanos: 2 },
    }
}

#[test]
fn successor_keeps_the_podcast_and_script() {
    let pre = episode();
    let next = successor_episode(&pre, "second".to_string());
    assert_eq!(next.title, "second");
    assert_eq!((next.user_id, next.podcast_id, next.script_id), (7, 8, 9));
    assert!(next.audio_url.is_none() && next.srt_url.is_none());
    assert_ne!(next.id, pre.id);
}

#[test]
fn a_podcast_needs_a_cron() {
    assert!(matches!(podcast_cron(None), Err(EpisodeError::CronNotFound)));
    assert_eq!(podcast_cron(Some("0 0 9 * * * *".to_string())).ok(), Some("0 0 9 * * * *".to_string()));
}

#[test]
fn task_at_schedules_the_next_episode() {
    let t = UtcTime { secs: 100, nanos: 0 };
    let task = task_at(Some(t), 5, 6).ok().expect("scheduled");
    assert_eq!(task.id, 6);
    assert!(task.status == TaskStatus::Pending);
    assert!(task.args == Args::NewEpisode { pre_episode_id: 5 });
    assert!(task.execute_after == t);
    assert!(task.executed_at.is_none());
    assert!(matches!(task_at(None, 5, 6), Err(EpisodeError::NoUpcomingTime)));
}

#[test]
fn next_episode_task_reads_the_cron() {
    let task = next_episode_task("0 0 9 * * * *", 5).ok().expect("a valid schedule");
    assert!(task.status == TaskStatus::Pending);
    assert!(task.args == Args::NewEpisode { pre_episode_id: 5 });
    assert!(matches!(next_episode_task("not a cron", 5), Err(EpisodeError::InvalidCron { .. })));
}

#[test]
fn asset_paths_use_the_hyphenated_id() {
    let id = episode().id;
    assert_eq!(asset_path(id, Asset::Audio), "episodes/01234567-89ab-cdef-0123-456789abcdef.mp3");
    assert_eq!(asset_path(id, Asset::Subtitles), "episodes/01234567-89ab-cdef-0123-456789abcdef.srt");
    assert_eq!(asset_path(0, Asset::Audio), "episodes/00000000-0000-0000-0000-000000000000.mp3");
    assert_eq!(content_type(Asset::Audio), "audio/mp3");
    assert_eq!(content_type(Asset::Subtitles), "text/plain");
}

#[test]
fn published_assets_set_both_urls() {
    assert_eq!(public_url("https://cdn", "episodes/x.mp3"), "https://cdn/episodes/x.mp3");
    let e = with_published_assets(episode(), "https://cdn/a.mp3".to_string(), "https://cdn/a.srt".to_string());
    assert_eq!(e.audio_url.as_deref(), Some("https://cdn/a.mp3"));
    assert_eq!(e.srt_url.as_deref(), Some("https://cdn/a.srt"));
    assert_eq!(e.title, "first");
}

#[test]
fn new_episode_flow_needs_a_cron_first() {
    let (_, a) = NewEpisodeFlow::start(episode(), None);
    assert!(matches!(a, NewEpisodeAction::Finish { result: Err(EpisodeError::CronNotFound) }));
}

#[test]
fn new_episode_flow_schedules_the_episode_it_created() {
    let (mut flow, a) = NewEpisodeFlow::start(episode(), Some("0 0 9 * * * *".to_string()));
    assert!(matches!(a, NewEpisodeAction::EvaluateScript { script_id: 9 }));
    let created = match flow.on_evaluated(Some("second".to_string())) {
        NewEpisodeAction::CreateEpisode { episode } => {
            assert_eq!(episode.title, "second");
            assert_eq!((episode.user_id, episode.podcast_id, episode.script_id), (7, 8, 9));
            episode.id
        }
        _ => panic!("expected the episode to store"),
    };
    match flow.on_created(true) {
        NewEpisodeAction::Finish { result: Ok(task) } => {
            assert!(task.args == Args::NewEpisode { pre_episode_id: created });
            assert!(task.status == TaskStatus::Pending);
        }
        _ => panic!("expected the next task"),
    }
}

#[test]
fn new_episode_flow_stops_on_failures() {
    let (mut flow, _) = NewEpisodeFlow::start(episode(), Some("0 0 9 * * * *".to_string()));
    assert!(matches!(flow.on_evaluated(None), NewEpisodeAction::Finish { result: Err(EpisodeError::ScriptFailed) }));
    let (mut flow, _) = NewEpisodeFlow::start(episode(), Some("bad".to_string()));
    flow.on_evaluated(Some("t".to_string()));
    assert!(matches!(flow.on_created(true), NewEpisodeAction::Finish { result: Err(EpisodeError::InvalidCron { .. }) }));
    let (mut flow, _) = NewEpisodeFlow::start(episode(), Some("0 0 9 * * * *".to_string()));
    flow.on_evaluated(Some("t".to_string()));
    assert!(matches!(flow.on_created(false), NewEpisodeAction::Finish { result: Err(EpisodeError::CreateFailed) }));
}
