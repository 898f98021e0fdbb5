use vstd::prelude::*;

verus! {

/// Where a queued task stands.
#[derive(PartialEq, Eq, Structural, Clone, Copy)]
pub enum TaskStatus {
    Unset,
    Pending,
    Running,
    Completed,
    Failed,
}

/// What a task asks the worker to do.
#[derive(PartialEq, Eq, Structural, Clone, Copy)]
pub enum Args {
    GenerateAudio { episode_id: u128 },
    EvaluateScript { script_id: u128 },
    NewEpisode { pre_episode_id: u128 },
}

/// A point in time: seconds since the Unix epoch and the nanoseconds past them.
#[derive(PartialEq, Eq, Structural, Clone, Copy)]
pub struct UtcTime {
    pub secs: i64,
    pub nanos: u32,
}

/// A queued task.
pub struct Task {
    pub id: u128,
    pub status: TaskStatus,
    pub args: Args,
    pub execute_after: UtcTime,
    pub executed_at: Option<UtcTime>,
}

/// The work a task's arguments call for; audio generation works in the
/// directory of its task.
#[derive(PartialEq, Eq, Structural, Clone, Copy)]
pub enum Job {
    GenerateAudio { task_id: u128, episode_id: u128 },
    EvaluateScript { script_id: u128 },
    NewEpisode { pre_episode_id: u128 },
}

/// The job that runs task `task_id` with arguments `args`.
pub open spec fn spec_job_for(task_id: u128, args: Args) -> Job {
    match args {
        Args::GenerateAudio { episode_id } => Job::GenerateAudio { task_id, episode_id },
        Args::EvaluateScript { script_id } => Job::EvaluateScript { script_id },
        Args::NewEpisode { pre_episode_id } => Job::NewEpisode { pre_episode_id },
    }
}

/// The job that runs task `task_id` with arguments `args`.
pub fn job_for(task_id: u128, args: Args) -> (job: Job)
    ensures
        job == spec_job_for(task_id, args),
{
    match args {
        Args::GenerateAudio { episode_id } => Job::GenerateAudio { task_id, episode_id },
        Args::EvaluateScript { script_id } => Job::EvaluateScript { script_id },
        Args::NewEpisode { pre_episode_id } => Job::NewEpisode { pre_episode_id },
    }
}

/// The status a task is recorded with once its job returned: `Completed`
/// when the job succeeded, `Failed` otherwise.
pub open spec fn spec_outcome_status(ok: bool) -> TaskStatus {
    if ok {
        TaskStatus::Completed
    } else {
        TaskStatus::Failed
    }
}

/// Why one round of the task queue stopped without running a task to its end.
#[derive(PartialEq, Eq, Structural, Clone, Copy)]
pub enum BatchFailure {
    /// Saving the task's status failed.
    SaveFailed,
    /// The task's stored arguments could not be read.
    ArgsInvalid,
}

/// How one round of the task queue ended.
#[derive(PartialEq, Eq, Structural, Clone, Copy)]
pub enum BatchOutcome {
    /// No task was waiting.
    Idle,
    /// Task `id` ran and was saved with `status`.
    Ran { id: u128, status: TaskStatus },
    /// The round stopped early.
    Aborted { failure: BatchFailure },
}

/// What the driver of a round must do next.
#[derive(PartialEq, Eq, Structural, Clone, Copy)]
pub enum BatchAction {
    /// Take the next pending task, if any.
    Pop,
    /// Save task `id` with `status`.
    Save { id: u128, status: TaskStatus },
    /// Read the task's stored arguments.
    DecodeArgs,
    /// Run the job.
    Execute { job: Job },
    /// The round is over.
    Stop { outcome: BatchOutcome },
}

/// Where a round stands.
#[derive(PartialEq, Eq, Structural, Clone, Copy)]
pub enum BatchStage {
    Popping,
    MarkingRunning,
    Decoding,
    Executing,
    Recording,
    Stopped,
}

/// One round of the task queue: take a pending task, mark it running, read
/// its arguments, run its job, and record whether the job succeeded.
pub struct BatchRound {
    pub stage: BatchStage,
    pub task_id: u128,
    pub status: TaskStatus,
    pub outcome: Option<BatchOutcome>,
}

/// How many steps a round may still take from `stage`.
pub open spec fn stage_rank(stage: BatchStage) -> int {
    match stage {
        BatchStage::Popping => 5,
        BatchStage::MarkingRunning => 4,
        BatchStage::Decoding => 3,
        BatchStage::Executing => 2,
        BatchStage::Recording => 1,
        BatchStage::Stopped => 0,
    }
}

/// What taking a task from the queue leaves: see [`BatchRound::on_popped`].
pub open spec fn popped_to(before: BatchRound, task: Option<u128>, after: BatchRound, a: BatchAction) -> bool {
    &&& (after.wf())
    &&& (stage_rank(after.stage) < stage_rank(before.stage))
    &&& match task {
        None => after.outcome == Some(BatchOutcome::Idle) && a == (BatchAction::Stop { outcome: BatchOutcome::Idle }),
        Some(id) => after.stage == BatchStage::MarkingRunning && after.task_id == id && a == (BatchAction::Save {
            id,
            status: TaskStatus::Running,
        }),
    }
}

/// What a finished save leaves: see [`BatchRound::on_saved`].
pub open spec fn saved_to(before: BatchRound, ok: bool, after: BatchRound, a: BatchAction) -> bool {
    &&& (after.wf())
    &&& (stage_rank(after.stage) < stage_rank(before.stage))
    &&& (after.task_id == before.task_id)
    &&& (!ok ==> after.outcome == Some(BatchOutcome::Aborted { failure: BatchFailure::SaveFailed }) && a == (BatchAction::Stop { outcome: BatchOutcome::Aborted { failure: BatchFailure::SaveFailed } }))
    &&& (ok && before.stage == BatchStage::MarkingRunning ==> after.stage == BatchStage::Decoding && a == BatchAction::DecodeArgs)
    &&& (ok && before.stage == BatchStage::Recording ==> after.outcome == Some(
        BatchOutcome::Ran { id: before.task_id, status: before.status },
    ) && a == (BatchAction::Stop { outcome: BatchOutcome::Ran { id: before.task_id, status: before.status } }))
}

/// What reading the stored arguments leaves: see [`BatchRound::on_decoded`].
pub open spec fn decoded_to(before: BatchRound, args: Option<Args>, after: BatchRound, a: BatchAction) -> bool {
    &&& (after.wf())
    &&& (stage_rank(after.stage) < stage_rank(before.stage))
    &&& (after.task_id == before.task_id)
    &&& match args {
        None => after.outcome == Some(BatchOutcome::Aborted { failure: BatchFailure::ArgsInvalid }) && a == (
        BatchAction::Stop { outcome: BatchOutcome::Aborted { failure: BatchFailure::ArgsInvalid } }),
        Some(x) => after.stage == BatchStage::Executing && a == (BatchAction::Execute {
            job: spec_job_for(before.task_id, x),
        }),
    }
}

/// What the job's return leaves: see [`BatchRound::on_executed`].
pub open spec fn executed_to(before: BatchRound, ok: bool, after: BatchRound, a: BatchAction) -> bool {
    &&& (after.wf())
    &&& (stage_rank(after.stage) < stage_rank(before.stage))
    &&& (after.task_id == before.task_id)
    &&& (after.stage == BatchStage::Recording)
    &&& (after.status == spec_outcome_status(ok))
    &&& (a == (BatchAction::Save { id: before.task_id, status: spec_outcome_status(ok) }))
}

impl BatchRound {
    /// A round's invariant: it has an outcome exactly when it has stopped, a
    /// task is running from the moment it was marked so until its job
    /// returned, and an outcome for a task that ran carries that task.
    pub open spec fn wf(&self) -> bool {
        &&& (self.stage == BatchStage::Stopped) == (self.outcome is Some)
        &&& (self.stage == BatchStage::MarkingRunning || self.stage == BatchStage::Decoding || self.stage
            == BatchStage::Executing) ==> self.status == TaskStatus::Running
        &&& self.stage == BatchStage::Recording ==> (self.status == TaskStatus::Completed || self.status
            == TaskStatus::Failed)
        &&& (self.outcome matches Some(BatchOutcome::Ran { id, status }) ==> id == self.task_id && status
            == self.status && (status == TaskStatus::Completed || status == TaskStatus::Failed))
    }

    /// Starts a round; the first thing to do is to take a task.
    pub fn new() -> (r: (BatchRound, BatchAction))
        ensures
            r.0.wf(),
            r.0.stage == BatchStage::Popping,
            r.1 == BatchAction::Pop,
    {
        (BatchRound { stage: BatchStage::Popping, task_id: 0, status: TaskStatus::Unset, outcome: None }, BatchAction::Pop)
    }

    fn stop(&mut self, outcome: BatchOutcome) -> (a: BatchAction)
        ensures
            final(self).stage == BatchStage::Stopped,
            final(self).outcome == Some(outcome),
            final(self).task_id == old(self).task_id,
            final(self).status == old(self).status,
            a == (BatchAction::Stop { outcome }),
    {
        self.stage = BatchStage::Stopped;
        self.outcome = Some(outcome);
        BatchAction::Stop { outcome }
    }

    /// The queue answered: `task` is the id of the task taken, if any. A task
    /// taken is marked running and saved; with none the round is idle.
    pub fn on_popped(&mut self, task: Option<u128>) -> (a: BatchAction)
        requires
            old(self).wf(),
            old(self).stage == BatchStage::Popping,
        ensures
            popped_to(*old(self), task, *final(self), a),
    {
        match task {
            None => self.stop(BatchOutcome::Idle),
            Some(id) => {
                self.task_id = id;
                self.status = TaskStatus::Running;
                self.stage = BatchStage::MarkingRunning;
                BatchAction::Save { id, status: TaskStatus::Running }
            },
        }
    }

    /// A save finished (`ok`) or failed. After marking the task running the
    /// arguments are read next; after recording the result the round is over.
    /// A failed save ends the round.
    pub fn on_saved(&mut self, ok: bool) -> (a: BatchAction)
        requires
            old(self).wf(),
            old(self).stage == BatchStage::MarkingRunning || old(self).stage == BatchStage::Recording,
        ensures
            saved_to(*old(self), ok, *final(self), a),
    {
        if !ok {
            self.stop(BatchOutcome::Aborted { failure: BatchFailure::SaveFailed })
        } else if self.stage == BatchStage::MarkingRunning {
            self.stage = BatchStage::Decoding;
            BatchAction::DecodeArgs
        } else {
            let outcome = BatchOutcome::Ran { id: self.task_id, status: self.status };
            self.stop(outcome)
        }
    }

    /// The stored arguments were read (`Some`) or were not valid. Valid ones
    /// give the job to run; invalid ones end the round.
    pub fn on_decoded(&mut self, args: Option<Args>) -> (a: BatchAction)
        requires
            old(self).wf(),
            old(self).stage == BatchStage::Decoding,
        ensures
            decoded_to(*old(self), args, *final(self), a),
    {
        match args {
            None => self.stop(BatchOutcome::Aborted { failure: BatchFailure::ArgsInvalid }),
            Some(x) => {
                self.stage = BatchStage::Executing;
                BatchAction::Execute { job: job_for(self.task_id, x) }
            },
        }
    }

    /// The job returned (`ok`) or failed; either way the task is saved with the
    /// matching final status.
    pub fn on_executed(&mut self, ok: bool) -> (a: BatchAction)
        requires
            old(self).wf(),
            old(self).stage == BatchStage::Executing,
        ensures
            executed_to(*old(self), ok, *final(self), a),
    {
        self.status = if ok {
            TaskStatus::Completed
        } else {
            TaskStatus::Failed
        };
        self.stage = BatchStage::Recording;
        BatchAction::Save { id: self.task_id, status: self.status }
    }
}

/// Over a whole round, the only statuses saved for a task are `Running`, when
/// it is taken, and then, once its arguments were read and its job returned,
/// `Completed` after a success or `Failed` after a failure (never `Running` or
/// `Pending` again). A round whose arguments cannot be read stops with the task
/// saved `Running` only, and an empty queue saves nothing.
pub proof fn law_round_saves_running_then_outcome(
    r0: BatchRound,
    task: Option<u128>,
    r1: BatchRound,
    a1: BatchAction,
    r2: BatchRound,
    a2: BatchAction,
    args: Option<Args>,
    r3: BatchRound,
    a3: BatchAction,
    ok: bool,
    r4: BatchRound,
    a4: BatchAction,
)
    requires
        r0.wf(),
        r0.stage == BatchStage::Popping,
        popped_to(r0, task, r1, a1),
        task is Some ==> saved_to(r1, true, r2, a2),
        task is Some ==> decoded_to(r2, args, r3, a3),
        task is Some && args is Some ==> executed_to(r3, ok, r4, a4),
    ensures
        task is None ==> a1 == (BatchAction::Stop { outcome: BatchOutcome::Idle }),
        task is Some ==> a1 == (BatchAction::Save { id: task->0, status: TaskStatus::Running }) && a2
            == BatchAction::DecodeArgs,
        task is Some && args is None ==> a3 == (BatchAction::Stop {
            outcome: BatchOutcome::Aborted { failure: BatchFailure::ArgsInvalid },
        }),
        task is Some && args is Some ==> a3 == (BatchAction::Execute { job: spec_job_for(task->0, args->0) })
            && a4 == (BatchAction::Save { id: task->0, status: spec_outcome_status(ok) }),
        task is Some && args is Some ==> (spec_outcome_status(ok) == TaskStatus::Completed <==> ok)
            && spec_outcome_status(ok) != TaskStatus::Running && spec_outcome_status(ok) != TaskStatus::Pending,
{
}

/// A round that ran a task records exactly what its job did: `Completed`
/// after a success, `Failed` after a failure, never `Running` or `Pending`.
pub proof fn law_recorded_status_reflects_job(ok: bool)
    ensures
        spec_outcome_status(ok) == TaskStatus::Completed <==> ok,
        spec_outcome_status(ok) != TaskStatus::Running,
        spec_outcome_status(ok) != TaskStatus::Pending,
{
}

/// `KEEP_WORKDIR` as `str::parse::<bool>` reads it: unset means `false`;
/// otherwise only `true` and `false` are accepted.
pub fn keep_workdir(configured: Option<&str>) -> (r: Option<bool>)
    ensures
        configured is None ==> r == Some(false),
        configured matches Some(s) ==> (s@ == "true"@ ==> r == Some(true)) && (s@ == "false"@ ==> r == Some(
            false,
        )) && (s@ != "true"@ && s@ != "false"@ ==> r is None),
{
    match configured {
        None => Some(false),
        Some(s) => {
            let v = crate::text::chars_of(s);
            proof {
                reveal_strlit("true");
                reveal_strlit("false");
            }
            if v.len() == 4 && v[0] == 't' && v[1] == 'r' && v[2] == 'u' && v[3] == 'e' {
                assert(s@ =~= "true"@);
                Some(true)
            } else if v.len() == 5 && v[0] == 'f' && v[1] == 'a' && v[2] == 'l' && v[3] == 's' && v[4] == 'e' {
                assert(s@ =~= "false"@);
                Some(false)
            } else {
                proof {
                    if s@ == "true"@ {
                        assert(v@[0] == 't');
                    }
                    if s@ == "false"@ {
                        assert(v@[0] == 'f');
                    }
                }
                None
            }
        },
    }
}

} // verus!
