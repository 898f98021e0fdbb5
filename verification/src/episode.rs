use vstd::prelude::*;
use vstd::arithmetic::power::pow;
use crate::task::{Args, Task, TaskStatus, UtcTime};
use crate::script::JsonValue;
use std::str::FromStr;

verus! {

/// An episode of a podcast.
pub struct Episode {
    pub id: u128,
    pub user_id: u128,
    pub title: String,
    pub podcast_id: u128,
    pub script_id: u128,
    pub audio_url: Option<String>,
    pub srt_url: Option<String>,
    pub created_at: UtcTime,
}

/// Why the next episode could not be prepared.
pub enum EpisodeError {
    /// The podcast has no cron schedule.
    CronNotFound,
    /// The podcast's cron expression was refused; the parser's message.
    InvalidCron { message: String },
    /// The schedule has no time left after now.
    NoUpcomingTime,
    /// Evaluating the podcast's script, or reading the manuscript it gave, failed.
    ScriptFailed,
    /// Storing the new episode failed.
    CreateFailed,
    /// The episode's script has no evaluated manuscript.
    ManuscriptNotFound,
}

/// `cron` accepts `expr` as a schedule (`cron::Schedule::from_str` succeeds).
pub uninterp spec fn cron_accepts(expr: Seq<char>) -> bool;

/// A parsed cron schedule.
#[verifier::external_type_specification]
#[verifier::external_body]
pub struct ExSchedule(cron::Schedule);

/// `cron::Schedule::from_str`: the schedule, or the parser's message. Whether
/// an expression is accepted is named, not stated; the message's wording is
/// not stated.
#[verifier::external_body]
fn parse_cron(expr: &str) -> (r: Result<cron::Schedule, String>)
    ensures
        r is Ok == cron_accepts(expr@),
{
    match cron::Schedule::from_str(expr) {
        Ok(s) => Ok(s),
        Err(e) => Err(e.to_string()),
    }
}

/// `schedule.upcoming(chrono::Utc).next()`: the first time of the schedule
/// after the current time, if any. Which time it is depends on the clock and
/// is not stated; a schedule fires on whole seconds (`cron` builds each time
/// with `with_ymd_and_hms`), so the time has no fraction of a second.
#[verifier::external_body]
fn next_upcoming(schedule: &cron::Schedule) -> (t: Option<UtcTime>)
    ensures
        t is Some ==> t->0.nanos == 0,
{
    match schedule.upcoming(chrono::Utc).next() {
        Some(t) => Some(UtcTime { secs: t.timestamp(), nanos: t.timestamp_subsec_nanos() }),
        None => None,
    }
}

/// `uuid::Uuid::new_v4().as_u128()`: a fresh random id; nothing is stated of it.
#[verifier::external_body]
fn new_uuid() -> (id: u128)
{
    uuid::Uuid::new_v4().as_u128()
}

/// `chrono::Utc::now()`: the current time; nothing is stated of it.
#[verifier::external_body]
fn utc_now() -> (t: UtcTime)
{
    let now = chrono::Utc::now();
    UtcTime { secs: now.timestamp(), nanos: now.timestamp_subsec_nanos() }
}

/// The episode that follows `pre`: a new id and creation time, the given
/// title, the same author, podcast and script, and no audio or subtitles yet.
pub fn successor_episode(pre: &Episode, title: String) -> (e: Episode)
    ensures
        e.user_id == pre.user_id,
        e.title@ == title@,
        e.podcast_id == pre.podcast_id,
        e.script_id == pre.script_id,
        e.audio_url is None,
        e.srt_url is None,
{
    Episode {
        id: new_uuid(),
        user_id: pre.user_id,
        title,
        podcast_id: pre.podcast_id,
        script_id: pre.script_id,
        audio_url: None,
        srt_url: None,
        created_at: utc_now(),
    }
}

/// A podcast can only get a next episode when it has a cron schedule.
pub fn podcast_cron(cron: Option<String>) -> (r: Result<String, EpisodeError>)
    ensures
        match cron {
            Some(c) => r matches Ok(s) && s@ == c@,
            None => r matches Err(EpisodeError::CronNotFound),
        },
{
    match cron {
        Some(c) => Ok(c),
        None => Err(EpisodeError::CronNotFound),
    }
}

/// The task that makes the episode after `episode_id` at `next`, the next time
/// of the schedule: pending, not run yet. Without a next time it fails.
pub fn task_at(next: Option<UtcTime>, episode_id: u128, task_id: u128) -> (r: Result<Task, EpisodeError>)
    ensures
        match next {
            None => r matches Err(EpisodeError::NoUpcomingTime),
            Some(t) => r matches Ok(task) && task.id == task_id && task.status == TaskStatus::Pending && task.args
                == (Args::NewEpisode { pre_episode_id: episode_id }) && task.execute_after == t
                && task.executed_at is None,
        },
{
    match next {
        None => Err(EpisodeError::NoUpcomingTime),
        Some(t) => Ok(
            Task {
                id: task_id,
                status: TaskStatus::Pending,
                args: Args::NewEpisode { pre_episode_id: episode_id },
                execute_after: t,
                executed_at: None,
            },
        ),
    }
}

/// What scheduling the episode after `episode_id` by the cron expression
/// gives: a refused expression fails with the parser's message; otherwise a
/// pending, unrun task that asks for the episode after `episode_id` and runs
/// at a time of the schedule (a whole second), or, when the schedule has no
/// time left, `NoUpcomingTime`.
pub open spec fn next_task_is(cron: Seq<char>, episode_id: u128, r: Result<Task, EpisodeError>) -> bool {
    &&& (!cron_accepts(cron) ==> (r matches Err(EpisodeError::InvalidCron { .. })))
    &&& (cron_accepts(cron) ==> match r {
        Ok(task) => task.status == TaskStatus::Pending && task.args == (Args::NewEpisode {
            pre_episode_id: episode_id,
        }) && task.executed_at is None && task.execute_after.nanos == 0,
        Err(e) => e is NoUpcomingTime,
    })
}

/// A task made for the episode after `episode_id` always asks for that
/// episode, waits to run (pending, not run yet) and runs at a time the cron
/// schedule fires, which falls on a whole second; it is only made for an
/// expression `cron` accepts.
pub proof fn law_next_task_follows_the_schedule(cron: Seq<char>, episode_id: u128, r: Result<Task, EpisodeError>)
    requires
        next_task_is(cron, episode_id, r),
    ensures
        r is Ok ==> cron_accepts(cron),
        r is Ok ==> r->Ok_0.args == (Args::NewEpisode { pre_episode_id: episode_id }),
        r is Ok ==> r->Ok_0.status == TaskStatus::Pending && r->Ok_0.executed_at is None,
        r is Ok ==> r->Ok_0.execute_after.nanos == 0,
{
}

/// The task that will make the episode after `episode_id`, scheduled at the
/// next time of the podcast's cron expression.
///
/// A refused expression fails with the parser's message. Otherwise the task
/// is pending, unrun, asks for a new episode after `episode_id` and gets a
/// fresh id; when the schedule has a next time the task runs then.
pub fn next_episode_task(cron: &str, episode_id: u128) -> (r: Result<Task, EpisodeError>)
    ensures
        next_task_is(cron@, episode_id, r),
{
    match parse_cron(cron) {
        Err(message) => Err(EpisodeError::InvalidCron { message }),
        Ok(schedule) => {
            let next = next_upcoming(&schedule);
            let task_id = new_uuid();
            task_at(next, episode_id, task_id)
        },
    }
}

/// The lower-case hexadecimal digit of `d < 16`.
pub open spec fn hex_lower(d: int) -> char {
    seq!['0', '1', '2', '3', '4', '5', '6', '7', '8', '9', 'a', 'b', 'c', 'd', 'e', 'f'][d]
}

/// Hex digit `k` (0 = most significant) of the 32 digits of a UUID.
pub open spec fn uuid_digit(id: u128, k: int) -> char {
    hex_lower((id as int / pow(16, (31 - k) as nat)) % 16)
}

/// Hex digits `from..to` of a UUID.
pub open spec fn uuid_digits(id: u128, from: int, to: int) -> Seq<char> {
    Seq::new((to - from) as nat, |i: int| uuid_digit(id, from + i))
}

/// A UUID in hyphenated lower-case form, `xxxxxxxx-xxxx-xxxx-xxxx-xxxxxxxxxxxx`,
/// the digits in big-endian order.
pub open spec fn uuid_hyphenated(id: u128) -> Seq<char> {
    uuid_digits(id, 0, 8) + seq!['-'] + uuid_digits(id, 8, 12) + seq!['-'] + uuid_digits(id, 12, 16)
        + seq!['-'] + uuid_digits(id, 16, 20) + seq!['-'] + uuid_digits(id, 20, 32)
}

/// `uuid::Uuid::from_u128(id).hyphenated().to_string()`: the id's 32 hex
/// digits, big-endian, lower case, grouped 8-4-4-4-12 by hyphens, as the
/// crate documents.
#[verifier::external_body]
fn hyphenated(id: u128) -> (s: String)
    ensures
        s@ == uuid_hyphenated(id),
{
    uuid::Uuid::from_u128(id).hyphenated().to_string()
}

/// The kinds of file stored for an episode.
#[derive(PartialEq, Eq, Structural, Clone, Copy)]
pub enum Asset {
    Audio,
    Subtitles,
}

/// The extension of an asset: `mp3` or `srt`.
pub open spec fn asset_extension(a: Asset) -> Seq<char> {
    match a {
        Asset::Audio => seq!['m', 'p', '3'],
        Asset::Subtitles => seq!['s', 'r', 't'],
    }
}

/// The content type an asset is uploaded with.
pub open spec fn asset_content_type(a: Asset) -> Seq<char> {
    match a {
        Asset::Audio => "audio/mp3"@,
        Asset::Subtitles => "text/plain"@,
    }
}

/// `episodes/<id>.<ext>`, where an episode's asset is stored.
pub open spec fn asset_key(id: u128, a: Asset) -> Seq<char> {
    "episodes/"@ + uuid_hyphenated(id) + seq!['.'] + asset_extension(a)
}

/// The storage key of an episode's asset.
pub fn asset_path(id: u128, a: Asset) -> (path: String)
    ensures
        path@ == asset_key(id, a),
{
    let mut path = "episodes/".to_owned();
    let h = hyphenated(id);
    path.append(h.as_str());
    match a {
        Asset::Audio => {
            path.append(".mp3");
            proof {
                reveal_strlit(".mp3");
                assert(".mp3"@ =~= seq!['.'] + asset_extension(a));
            }
        },
        Asset::Subtitles => {
            path.append(".srt");
            proof {
                reveal_strlit(".srt");
                assert(".srt"@ =~= seq!['.'] + asset_extension(a));
            }
        },
    }
    path
}

/// The content type an asset is uploaded with: `audio/mp3` or `text/plain`.
pub fn content_type(a: Asset) -> (t: &'static str)
    ensures
        t@ == asset_content_type(a),
{
    match a {
        Asset::Audio => "audio/mp3",
        Asset::Subtitles => "text/plain",
    }
}

/// `<endpoint>/<path>`, the public URL of a stored file.
pub fn public_url(endpoint: &str, path: &str) -> (url: String)
    ensures
        url@ == endpoint@ + "/"@ + path@,
{
    let mut url = endpoint.to_owned();
    url.append("/");
    url.append(path);
    url
}

/// The episode once its audio and subtitles are published at the given URLs.
pub fn with_published_assets(episode: Episode, audio_url: String, srt_url: String) -> (e: Episode)
    ensures
        e.id == episode.id,
        e.user_id == episode.user_id,
        e.title == episode.title,
        e.podcast_id == episode.podcast_id,
        e.script_id == episode.script_id,
        e.created_at == episode.created_at,
        e.audio_url matches Some(u) && u@ == audio_url@,
        e.srt_url matches Some(u) && u@ == srt_url@,
{
    Episode { audio_url: Some(audio_url), srt_url: Some(srt_url), ..episode }
}

/// The manuscript an episode's audio is made from: the evaluated result of
/// its script, which must be there.
pub fn stored_manuscript(result: Option<JsonValue>) -> (r: Result<JsonValue, EpisodeError>)
    ensures
        match result {
            Some(v) => r matches Ok(m) && m == v,
            None => r matches Err(EpisodeError::ManuscriptNotFound),
        },
{
    match result {
        Some(v) => Ok(v),
        None => Err(EpisodeError::ManuscriptNotFound),
    }
}

/// What the driver of a new-episode flow must do next.
pub enum NewEpisodeAction {
    /// Evaluate script `script_id` and report the title of the manuscript it gives.
    EvaluateScript { script_id: u128 },
    /// Store `episode`.
    CreateEpisode { episode: Episode },
    /// The flow is over: the task that makes the episode after the new one, or why it failed.
    Finish { result: Result<Task, EpisodeError> },
}

/// Where a new-episode flow stands.
#[derive(PartialEq, Eq, Structural, Clone, Copy)]
pub enum NewEpisodeStage {
    Evaluating,
    Creating,
    Done,
}

/// The decisions of making the episode that follows `pre`: the podcast must
/// have a cron schedule before anything is evaluated; the script is evaluated
/// and its manuscript's title names the new episode; the new episode is
/// stored; then the task that makes the episode after it is scheduled by the
/// cron expression.
pub struct NewEpisodeFlow {
    pre: Episode,
    cron: String,
    stage: NewEpisodeStage,
    created: u128,
}

impl NewEpisodeFlow {
    pub closed spec fn stage_view(&self) -> NewEpisodeStage {
        self.stage
    }

    /// The episode the new one follows.
    pub closed spec fn pre_view(&self) -> (u128, u128, u128) {
        (self.pre.user_id, self.pre.podcast_id, self.pre.script_id)
    }

    /// The podcast's cron expression.
    pub closed spec fn cron_view(&self) -> Seq<char> {
        self.cron@
    }

    /// The id of the episode stored, once it has been made.
    pub closed spec fn created_id(&self) -> u128 {
        self.created
    }

    /// Starts the flow for the episode after `pre`, whose podcast has the
    /// cron expression `cron`, if any. Without one the flow ends at once.
    pub fn start(pre: Episode, cron: Option<String>) -> (r: (NewEpisodeFlow, NewEpisodeAction))
        ensures
            r.0.pre_view() == (pre.user_id, pre.podcast_id, pre.script_id),
            match cron {
                None => r.0.stage_view() == NewEpisodeStage::Done && r.1 matches NewEpisodeAction::Finish {
                    result: Err(EpisodeError::CronNotFound),
                },
                Some(c) => r.0.stage_view() == NewEpisodeStage::Evaluating && r.0.cron_view() == c@ && r.1
                    == (NewEpisodeAction::EvaluateScript { script_id: pre.script_id }),
            },
    {
        let script_id = pre.script_id;
        match podcast_cron(cron) {
            Err(e) => (
                NewEpisodeFlow { pre, cron: String::new(), stage: NewEpisodeStage::Done, created: 0 },
                NewEpisodeAction::Finish { result: Err(e) },
            ),
            Ok(c) => (
                NewEpisodeFlow { pre, cron: c, stage: NewEpisodeStage::Evaluating, created: 0 },
                NewEpisodeAction::EvaluateScript { script_id },
            ),
        }
    }

    /// The script was evaluated: `title` is the title of the manuscript it
    /// gave, or `None` when evaluating or reading it failed.
    pub fn on_evaluated(&mut self, title: Option<String>) -> (a: NewEpisodeAction)
        requires
            old(self).stage_view() == NewEpisodeStage::Evaluating,
        ensures
            final(self).pre_view() == old(self).pre_view(),
            final(self).cron_view() == old(self).cron_view(),
            match title {
                None => final(self).stage_view() == NewEpisodeStage::Done && a matches NewEpisodeAction::Finish {
                    result: Err(EpisodeError::ScriptFailed),
                },
                Some(t) => {
                    &&& final(self).stage_view() == NewEpisodeStage::Creating
                    &&& a matches NewEpisodeAction::CreateEpisode { episode }
                    &&& episode.id == final(self).created_id()
                    &&& episode.title@ == t@
                    &&& (episode.user_id, episode.podcast_id, episode.script_id) == old(self).pre_view()
                    &&& episode.audio_url is None
                    &&& episode.srt_url is None
                },
            },
    {
        match title {
            None => {
                self.stage = NewEpisodeStage::Done;
                NewEpisodeAction::Finish { result: Err(EpisodeError::ScriptFailed) }
            },
            Some(t) => {
                let episode = successor_episode(&self.pre, t);
                self.created = episode.id;
                self.stage = NewEpisodeStage::Creating;
                NewEpisodeAction::CreateEpisode { episode }
            },
        }
    }

    /// The new episode was stored (`ok`) or not. Once it is, the task that
    /// makes the episode after it is scheduled by the cron expression.
    pub fn on_created(&mut self, ok: bool) -> (a: NewEpisodeAction)
        requires
            old(self).stage_view() == NewEpisodeStage::Creating,
        ensures
            final(self).stage_view() == NewEpisodeStage::Done,
            !ok ==> a matches NewEpisodeAction::Finish { result: Err(EpisodeError::CreateFailed) },
            ok && !cron_accepts(old(self).cron_view()) ==> a matches NewEpisodeAction::Finish {
                result: Err(EpisodeError::InvalidCron { .. }),
            },
            ok && cron_accepts(old(self).cron_view()) ==> match a {
                NewEpisodeAction::Finish { result: Ok(task) } => {
                    &&& task.status == TaskStatus::Pending
                    &&& task.args == (Args::NewEpisode { pre_episode_id: old(self).created_id() })
                    &&& task.executed_at is None
                    &&& task.execute_after.nanos == 0
                },
                NewEpisodeAction::Finish { result: Err(e) } => e is NoUpcomingTime,
                _ => false,
            },
    {
        self.stage = NewEpisodeStage::Done;
        if !ok {
            NewEpisodeAction::Finish { result: Err(EpisodeError::CreateFailed) }
        } else {
            NewEpisodeAction::Finish { result: next_episode_task(self.cron.as_str(), self.created) }
        }
    }
}

} // verus!
