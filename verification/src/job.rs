//! Setting up the guard by which the operating system ends the backend when
//! the host ends, however the host ends.
//!
//! The guard is a job that kills its processes when its last handle is
//! closed. Setting it up takes four calls to the operating system, each of
//! which may fail, and leaves up to two handles to close. This module
//! decides which call comes next and which handle is closed when; the caller
//! makes the calls and reports how each one went. Whatever fails, no handle
//! is left open but that of a job that guards the backend.

use vstd::prelude::*;

verus! {

/// One call to the operating system.
#[derive(Clone, Copy, Debug, PartialEq, Eq)]
pub enum JobStep {
    /// Create the job.
    CreateJob,
    /// Tell the job to kill its processes when its last handle is closed.
    SetKillOnClose,
    /// Open the backend process by its identifier.
    OpenProcess,
    /// Put the process into the job.
    AssignProcess,
    /// Close the handle of the process.
    CloseProcess,
    /// Close the handle of the job.
    CloseJob,
}

/// How far the set-up has come. Each state but the last two has one call
/// that is due in it.
#[derive(Clone, Copy, Debug, PartialEq, Eq)]
pub enum JobSetup {
    /// Nothing has been done; the job is to be created.
    Creating,
    /// The job exists and is to be told to kill on close.
    Limiting,
    /// The job is ready and the process is to be opened.
    Opening,
    /// The process is open and is to be put into the job.
    Assigning,
    /// The process has been put into the job, or could not be, and its
    /// handle is to be closed.
    Releasing { assigned: bool },
    /// A call has failed and the job is to be closed again.
    Abandoning,
    /// The job guards the process; its handle stays open.
    Held,
    /// No guard could be set up; no handle is open.
    Failed,
}

/// How each of the four calls that may fail turns out.
pub struct Answers {
    pub create: bool,
    pub limit: bool,
    pub open: bool,
    pub assign: bool,
}

/// The handles that are open.
pub struct Handles {
    pub job: bool,
    pub process: bool,
}

/// The call that is due in `state`; none once the set-up has ended.
pub open spec fn pending_step(state: JobSetup) -> Option<JobStep> {
    match state {
        JobSetup::Creating => Some(JobStep::CreateJob),
        JobSetup::Limiting => Some(JobStep::SetKillOnClose),
        JobSetup::Opening => Some(JobStep::OpenProcess),
        JobSetup::Assigning => Some(JobStep::AssignProcess),
        JobSetup::Releasing { .. } => Some(JobStep::CloseProcess),
        JobSetup::Abandoning => Some(JobStep::CloseJob),
        JobSetup::Held => None,
        JobSetup::Failed => None,
    }
}

/// The state that follows `state` once the call due in it has been made and
/// has succeeded (`ok`) or failed. Closing a handle counts as done either
/// way, and a set-up that has ended stays as it is.
pub open spec fn next_state(state: JobSetup, ok: bool) -> JobSetup {
    match state {
        JobSetup::Creating => if ok {
            JobSetup::Limiting
        } else {
            JobSetup::Failed
        },
        JobSetup::Limiting => if ok {
            JobSetup::Opening
        } else {
            JobSetup::Abandoning
        },
        JobSetup::Opening => if ok {
            JobSetup::Assigning
        } else {
            JobSetup::Abandoning
        },
        JobSetup::Assigning => JobSetup::Releasing { assigned: ok },
        JobSetup::Releasing { assigned } => if assigned {
            JobSetup::Held
        } else {
            JobSetup::Abandoning
        },
        JobSetup::Abandoning => JobSetup::Failed,
        JobSetup::Held => JobSetup::Held,
        JobSetup::Failed => JobSetup::Failed,
    }
}

/// The number of calls that are at most still to come.
pub open spec fn steps_left(state: JobSetup) -> nat {
    match state {
        JobSetup::Creating => 6,
        JobSetup::Limiting => 5,
        JobSetup::Opening => 4,
        JobSetup::Assigning => 3,
        JobSetup::Releasing { .. } => 2,
        JobSetup::Abandoning => 1,
        JobSetup::Held => 0,
        JobSetup::Failed => 0,
    }
}

/// The handles that are open in `state`.
pub open spec fn open_handles(state: JobSetup) -> Handles {
    match state {
        JobSetup::Creating => Handles { job: false, process: false },
        JobSetup::Limiting => Handles { job: true, process: false },
        JobSetup::Opening => Handles { job: true, process: false },
        JobSetup::Assigning => Handles { job: true, process: true },
        JobSetup::Releasing { .. } => Handles { job: true, process: true },
        JobSetup::Abandoning => Handles { job: true, process: false },
        JobSetup::Held => Handles { job: true, process: false },
        JobSetup::Failed => Handles { job: false, process: false },
    }
}

/// What a call does to the handles: creating and opening give one if they
/// succeed, closing takes one away, and the other two calls change none.
pub open spec fn handles_after(step: JobStep, ok: bool, handles: Handles) -> Handles {
    match step {
        JobStep::CreateJob => Handles { job: ok, process: handles.process },
        JobStep::OpenProcess => Handles { job: handles.job, process: ok },
        JobStep::CloseProcess => Handles { job: handles.job, process: false },
        JobStep::CloseJob => Handles { job: false, process: handles.process },
        JobStep::SetKillOnClose => handles,
        JobStep::AssignProcess => handles,
    }
}

/// Whether a call can be made with the handles that are open: a handle is
/// created only when there is none, and used or closed only when it is
/// open.
pub open spec fn step_allowed(step: JobStep, handles: Handles) -> bool {
    match step {
        JobStep::CreateJob => !handles.job && !handles.process,
        JobStep::SetKillOnClose => handles.job,
        JobStep::OpenProcess => handles.job && !handles.process,
        JobStep::AssignProcess => handles.job && handles.process,
        JobStep::CloseProcess => handles.process,
        JobStep::CloseJob => handles.job && !handles.process,
    }
}

/// How `step` turns out under `answers`. Closing a handle always counts as
/// done.
pub open spec fn answer_to(step: JobStep, answers: Answers) -> bool {
    match step {
        JobStep::CreateJob => answers.create,
        JobStep::SetKillOnClose => answers.limit,
        JobStep::OpenProcess => answers.open,
        JobStep::AssignProcess => answers.assign,
        JobStep::CloseProcess => true,
        JobStep::CloseJob => true,
    }
}

/// The calls that are made from `state` on, in order, when the operating
/// system answers as `answers` says.
pub open spec fn steps_from(state: JobSetup, answers: Answers) -> Seq<JobStep>
    decreases steps_left(state),
{
    match pending_step(state) {
        Some(step) => seq![step] + steps_from(next_state(state, answer_to(step, answers)), answers),
        None => Seq::empty(),
    }
}

/// The state in which the set-up ends when it starts in `state` and the
/// operating system answers as `answers` says.
pub open spec fn end_from(state: JobSetup, answers: Answers) -> JobSetup
    decreases steps_left(state),
{
    match pending_step(state) {
        Some(step) => end_from(next_state(state, answer_to(step, answers)), answers),
        None => state,
    }
}

/// The calls of a whole set-up, written out: each call is made if the ones
/// before it succeeded; the process is closed once it has been opened; and
/// the job is closed again if a later call failed.
pub open spec fn script(answers: Answers) -> Seq<JobStep> {
    if !answers.create {
        seq![JobStep::CreateJob]
    } else if !answers.limit {
        seq![JobStep::CreateJob, JobStep::SetKillOnClose, JobStep::CloseJob]
    } else if !answers.open {
        seq![JobStep::CreateJob, JobStep::SetKillOnClose, JobStep::OpenProcess, JobStep::CloseJob]
    } else if !answers.assign {
        seq![
            JobStep::CreateJob,
            JobStep::SetKillOnClose,
            JobStep::OpenProcess,
            JobStep::AssignProcess,
            JobStep::CloseProcess,
            JobStep::CloseJob,
        ]
    } else {
        seq![
            JobStep::CreateJob,
            JobStep::SetKillOnClose,
            JobStep::OpenProcess,
            JobStep::AssignProcess,
            JobStep::CloseProcess,
        ]
    }
}

/// Whether all four calls that may fail succeed.
pub open spec fn all_succeed(answers: Answers) -> bool {
    answers.create && answers.limit && answers.open && answers.assign
}

impl JobSetup {
    /// The state in which a set-up starts.
    pub fn new() -> (state: Self)
        ensures
            state == JobSetup::Creating,
    {
        JobSetup::Creating
    }

    /// The call to make now, or `None` once the set-up has ended.
    pub fn pending(self) -> (step: Option<JobStep>)
        ensures
            step == pending_step(self),
    {
        match self {
            JobSetup::Creating => Some(JobStep::CreateJob),
            JobSetup::Limiting => Some(JobStep::SetKillOnClose),
            JobSetup::Opening => Some(JobStep::OpenProcess),
            JobSetup::Assigning => Some(JobStep::AssignProcess),
            JobSetup::Releasing { .. } => Some(JobStep::CloseProcess),
            JobSetup::Abandoning => Some(JobStep::CloseJob),
            JobSetup::Held => None,
            JobSetup::Failed => None,
        }
    }

    /// The state after the pending call has been made and has succeeded
    /// (`ok`) or failed. Fewer calls are left than before, so a set-up ends
    /// after six calls at most.
    pub fn advance(self, ok: bool) -> (next: Self)
        ensures
            next == next_state(self, ok),
            pending_step(self).is_some() ==> steps_left(next) < steps_left(self),
    {
        match self {
            JobSetup::Creating => if ok {
                JobSetup::Limiting
            } else {
                JobSetup::Failed
            },
            JobSetup::Limiting => if ok {
                JobSetup::Opening
            } else {
                JobSetup::Abandoning
            },
            JobSetup::Opening => if ok {
                JobSetup::Assigning
            } else {
                JobSetup::Abandoning
            },
            JobSetup::Assigning => JobSetup::Releasing { assigned: ok },
            JobSetup::Releasing { assigned } => if assigned {
                JobSetup::Held
            } else {
                JobSetup::Abandoning
            },
            JobSetup::Abandoning => JobSetup::Failed,
            JobSetup::Held => JobSetup::Held,
            JobSetup::Failed => JobSetup::Failed,
        }
    }

    /// Whether the guard is set up: the job holds the process and its handle
    /// is the caller's to keep.
    pub fn is_held(self) -> (held: bool)
        ensures
            held == (self is Held),
    {
        match self {
            JobSetup::Held => true,
            _ => false,
        }
    }

    /// Whether the set-up has ended, with a guard or without.
    pub fn is_finished(self) -> (finished: bool)
        ensures
            finished == pending_step(self).is_none(),
            finished == (self is Held || self is Failed),
    {
        match self {
            JobSetup::Held => true,
            JobSetup::Failed => true,
            _ => false,
        }
    }
}

/// The set-up makes the calls of the script and no others, and it ends with
/// the guard held exactly when all four calls that may fail succeeded;
/// otherwise it ends without one.
pub proof fn setup_follows_script(answers: Answers)
    ensures
        steps_from(JobSetup::Creating, answers) == script(answers),
        end_from(JobSetup::Creating, answers) == if all_succeed(answers) {
            JobSetup::Held
        } else {
            JobSetup::Failed
        },
{
    reveal_with_fuel(steps_from, 8);
    reveal_with_fuel(end_from, 8);
    assert(steps_from(JobSetup::Creating, answers) =~= script(answers));
}

/// Every call finds the handles it needs: the call due in a state can be
/// made with the handles open in that state, and after it the handles open
/// are those of the state that follows.
pub proof fn handles_are_tracked(state: JobSetup, ok: bool)
    requires
        pending_step(state).is_some(),
    ensures
        step_allowed(pending_step(state).unwrap(), open_handles(state)),
        open_handles(next_state(state, ok)) == handles_after(
            pending_step(state).unwrap(),
            ok,
            open_handles(state),
        ),
{
}

/// No handle leaks: when the set-up has ended, the handle of the process is
/// closed, and that of the job is open exactly when the guard is held.
pub proof fn no_handle_leaks(answers: Answers)
    ensures
        !open_handles(end_from(JobSetup::Creating, answers)).process,
        open_handles(end_from(JobSetup::Creating, answers)).job == all_succeed(answers),
{
    setup_follows_script(answers);
}

} // verus!
