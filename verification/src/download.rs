//! The steps of one download, and what the queue hears of them.
//!
//! The caller asks the server for the file, performs one step after the other, and hands the
//! outcome of each back until the download is finished.

use vstd::prelude::*;
use crate::files::{
    destination, destination_path, extension_or_empty, may_be_extension, path_extension, reads_alike,
};
use crate::tasks::{DownloadEvent, DownloadJob, EventView, JobView};

verus! {

/// How long a finished task stays in the queue, in seconds.
pub const REMOVE_DELAY_SECS: u64 = 3;

/// One step of a download.
#[derive(Debug, PartialEq, Eq)]
pub enum Step {
    /// Move a file of this machine.
    Rename { from: String, to: String },
    /// Copy a file of this machine.
    Copy { from: String, to: String },
    /// Delete a file of this machine; whether that succeeds does not matter.
    Remove { path: String },
    /// Create the file to fetch into.
    Create { from: String, to: String },
    /// Fetch a file from the server.
    Fetch { from: String, to: String },
    /// Nothing is left to do: the download succeeded, or failed for this reason.
    Finished(Result<(), String>),
}

/// The view of a `Step`.
pub enum StepView {
    Rename { from: Seq<char>, to: Seq<char> },
    Copy { from: Seq<char>, to: Seq<char> },
    Remove { path: Seq<char> },
    Create { from: Seq<char>, to: Seq<char> },
    Fetch { from: Seq<char>, to: Seq<char> },
    Finished(Result<(), Seq<char>>),
}

/// The view of an outcome.
pub open spec fn outcome_view(r: Result<(), String>) -> Result<(), Seq<char>> {
    match r {
        Ok(()) => Ok(()),
        Err(e) => Err(e@),
    }
}

impl View for Step {
    type V = StepView;

    open spec fn view(&self) -> StepView {
        match self {
            Step::Rename { from, to } => StepView::Rename { from: from@, to: to@ },
            Step::Copy { from, to } => StepView::Copy { from: from@, to: to@ },
            Step::Remove { path } => StepView::Remove { path: path@ },
            Step::Create { from, to } => StepView::Create { from: from@, to: to@ },
            Step::Fetch { from, to } => StepView::Fetch { from: from@, to: to@ },
            Step::Finished(r) => StepView::Finished(outcome_view(*r)),
        }
    }
}

/// Where a job stores a file with this extension.
pub open spec fn job_destination(job: JobView, ext: Seq<char>) -> Seq<char> {
    destination(job.dest_dir, job.file_name, job.file_id, ext)
}

/// The first step for a file of which the server told the path, and which has this extension. In
/// local mode the path is one of this machine, and the file is moved; else it is fetched.
pub open spec fn transfer_step(job: JobView, path: Seq<char>, ext: Seq<char>) -> StepView {
    if job.local_mode {
        StepView::Rename { from: path, to: job_destination(job, ext) }
    } else {
        StepView::Create { from: path, to: job_destination(job, ext) }
    }
}

/// The step after one with this outcome. A file that cannot be moved is copied.
pub open spec fn step_after(step: StepView, outcome: Result<(), Seq<char>>) -> StepView {
    match step {
        StepView::Rename { from, to } => if outcome is Ok {
            StepView::Finished(Ok(()))
        } else {
            StepView::Copy { from, to }
        },
        StepView::Copy { from, to } => if outcome is Ok {
            StepView::Remove { path: from }
        } else {
            StepView::Finished(outcome)
        },
        StepView::Remove { path } => StepView::Finished(Ok(())),
        StepView::Create { from, to } => if outcome is Ok {
            StepView::Fetch { from, to }
        } else {
            StepView::Finished(outcome)
        },
        StepView::Fetch { from, to } => StepView::Finished(outcome),
        StepView::Finished(r) => StepView::Finished(r),
    }
}

/// The first step for a file of which the server told the path, and which has this extension.
pub fn begin_transfer(job: &DownloadJob, path: String, ext: &str) -> (r: Step)
    ensures
        r@ == transfer_step(job@, path@, ext@),
{
    let to: String = destination_path(
        job.dest_dir.as_str(),
        job.file_name.as_str(),
        job.file_id.as_str(),
        ext,
    );
    if job.local_mode {
        Step::Rename { from: path, to }
    } else {
        Step::Create { from: path, to }
    }
}

/// The first step of a download, given the path that the server told, whose extension the stored
/// file takes over, or its refusal.
pub fn download_file_logic(job: &DownloadJob, file: Result<String, String>) -> (r: Step)
    ensures
        match file {
            Ok(p) => exists|ext: Seq<char>| #[trigger]
                may_be_extension(p@, ext) && r@ == transfer_step(job@, p@, ext),
            Err(e) => r@ == StepView::Finished(Err(e@)),
        },
        file matches Ok(p) ==> reads_alike(p@) ==> r@ == transfer_step(
            job@,
            p@,
            extension_or_empty(p@),
        ),
{
    match file {
        Ok(path) => {
            let ext: String = path_extension(path.as_str());
            begin_transfer(job, path, ext.as_str())
        },
        Err(e) => Step::Finished(Err(e)),
    }
}

/// The step after one with this outcome.
pub fn next_step(step: Step, outcome: Result<(), String>) -> (r: Step)
    ensures
        r@ == step_after(step@, outcome_view(outcome)),
{
    match step {
        Step::Rename { from, to } => match outcome {
            Ok(()) => Step::Finished(Ok(())),
            Err(_) => Step::Copy { from, to },
        },
        Step::Copy { from, to } => match outcome {
            Ok(()) => Step::Remove { path: from },
            Err(e) => Step::Finished(Err(e)),
        },
        Step::Remove { path } => Step::Finished(Ok(())),
        Step::Create { from, to } => match outcome {
            Ok(()) => Step::Fetch { from, to },
            Err(e) => Step::Finished(Err(e)),
        },
        Step::Fetch { from, to } => Step::Finished(outcome),
        Step::Finished(r) => Step::Finished(r),
    }
}

/// What the queue hears when a download begins.
pub fn started_event(job: &DownloadJob) -> (r: DownloadEvent)
    ensures
        r@ == EventView::TaskStarted(job@.task_id),
{
    DownloadEvent::TaskStarted(job.task_id.clone())
}

/// What the queue hears when a download ends.
pub open spec fn outcome_event(task_id: Seq<char>, outcome: Result<(), Seq<char>>) -> EventView {
    match outcome {
        Ok(_) => EventView::TaskDone(task_id),
        Err(e) => EventView::TaskError(task_id, e),
    }
}

/// What the queue hears a while after that: a task that succeeded leaves the list, one that
/// failed stays.
pub open spec fn late_event(task_id: Seq<char>, outcome: Result<(), Seq<char>>) -> Option<EventView> {
    match outcome {
        Ok(_) => Some(EventView::TaskRemove(task_id)),
        Err(_) => None,
    }
}

/// What the queue hears when a download ends, and what it hears `REMOVE_DELAY_SECS` later.
pub fn finished_events(job: &DownloadJob, outcome: Result<(), String>) -> (r: (
    DownloadEvent,
    Option<DownloadEvent>,
))
    ensures
        r.0@ == outcome_event(job@.task_id, outcome_view(outcome)),
        r.1.deep_view() == late_event(job@.task_id, outcome_view(outcome)),
{
    match outcome {
        Ok(()) => (
            DownloadEvent::TaskDone(job.task_id.clone()),
            Some(DownloadEvent::TaskRemove(job.task_id.clone())),
        ),
        Err(e) => (DownloadEvent::TaskError(job.task_id.clone(), e), None),
    }
}

/// How many steps are left at most.
pub open spec fn steps_left(step: StepView) -> nat {
    match step {
        StepView::Rename { .. } => 3,
        StepView::Copy { .. } => 2,
        StepView::Remove { .. } => 1,
        StepView::Create { .. } => 2,
        StepView::Fetch { .. } => 1,
        StepView::Finished(_) => 0,
    }
}

/// Where a step writes to, if it writes.
pub open spec fn written_path(step: StepView) -> Option<Seq<char>> {
    match step {
        StepView::Rename { to, .. } => Some(to),
        StepView::Copy { to, .. } => Some(to),
        StepView::Create { to, .. } => Some(to),
        StepView::Fetch { to, .. } => Some(to),
        _ => None,
    }
}

/// A download ends: it has at most three steps, and each brings it closer to its end.
pub proof fn law_downloads_end(
    job: JobView,
    path: Seq<char>,
    ext: Seq<char>,
    step: StepView,
    outcome: Result<(), Seq<char>>,
)
    ensures
        steps_left(transfer_step(job, path, ext)) <= 3,
        steps_left(step) > 0 ==> steps_left(step_after(step, outcome)) < steps_left(step),
        steps_left(step) == 0 <==> step is Finished,
{
}

/// A download writes to one path only.
pub proof fn law_download_writes_one_file(
    job: JobView,
    path: Seq<char>,
    ext: Seq<char>,
    step: StepView,
    outcome: Result<(), Seq<char>>,
)
    ensures
        written_path(transfer_step(job, path, ext)) == Some(job_destination(job, ext)),
        written_path(step_after(step, outcome)) is Some ==> written_path(step_after(step, outcome))
            == written_path(step),
{
}

/// A download stores its file where `get_expected_filename` looks for it, so what was downloaded
/// once is found the next time. Both go by the extension that the platform reads in the remote
/// path: where all read the path alike that is the same one each time, else it is asked.
pub proof fn law_file_is_stored_where_expected(
    job: JobView,
    path: Seq<char>,
    stored: Seq<char>,
    expected: Seq<char>,
)
    requires
        may_be_extension(path, stored),
        may_be_extension(path, expected),
        !reads_alike(path) ==> stored == expected,
    ensures
        written_path(transfer_step(job, path, stored)) == Some(
            destination(job.dest_dir, job.file_name, job.file_id, expected),
        ),
{
}

/// A file of this machine is deleted only once it has been copied.
pub proof fn law_source_is_removed_only_after_copy(
    job: JobView,
    start: Seq<char>,
    ext: Seq<char>,
    step: StepView,
    outcome: Result<(), Seq<char>>,
)
    ensures
        !(transfer_step(job, start, ext) is Remove),
        step_after(step, outcome) matches StepView::Remove { path } ==> outcome is Ok && (
        step matches StepView::Copy { from, .. } && from == path),
{
}

/// In local mode a download succeeds if and only if the file can be moved or copied, and its
/// error is that of the copy.
pub proof fn law_local_download(
    job: JobView,
    path: Seq<char>,
    ext: Seq<char>,
    rename: Result<(), Seq<char>>,
    copy: Result<(), Seq<char>>,
    remove: Result<(), Seq<char>>,
)
    requires
        job.local_mode,
    ensures
        ({
            let moved = step_after(transfer_step(job, path, ext), rename);
            let copied = step_after(moved, copy);
            let removed = step_after(copied, remove);
            removed == StepView::Finished(
                if rename is Ok || copy is Ok {
                    Ok(())
                } else {
                    copy
                },
            )
        }),
{
}

/// Without local mode a download succeeds if and only if the file can be created and fetched, and
/// its error is the first that comes.
pub proof fn law_remote_download(
    job: JobView,
    path: Seq<char>,
    ext: Seq<char>,
    create: Result<(), Seq<char>>,
    fetch: Result<(), Seq<char>>,
)
    requires
        !job.local_mode,
    ensures
        step_after(step_after(transfer_step(job, path, ext), create), fetch) == StepView::Finished(
            if create is Ok {
                fetch
            } else {
                create
            },
        ),
{
}

/// With a local server the file is moved from the path that the server told, else it is fetched
/// from there; either way to the folder of the job, under the name and the id of its file.
pub proof fn law_transfer_is_from_the_told_path(job: JobView, path: Seq<char>, ext: Seq<char>)
    ensures
        ({
            let to = job.dest_dir + "/"@ + job.file_name + "_"@ + job.file_id + "."@ + ext;
            &&& job.local_mode ==> transfer_step(job, path, ext) == (StepView::Rename {
                from: path,
                to,
            })
            &&& !job.local_mode ==> transfer_step(job, path, ext) == (StepView::Create {
                from: path,
                to,
            })
        }),
{
}

/// A move that fails is tried again as a copy between the same two paths, and what was copied is
/// removed where it came from. Whatever becomes of that, the download has succeeded.
pub proof fn law_a_failed_move_becomes_a_copy(
    from: Seq<char>,
    to: Seq<char>,
    error: Seq<char>,
    removed: Result<(), Seq<char>>,
)
    ensures
        step_after(StepView::Rename { from, to }, Ok(())) == StepView::Finished(Ok(())),
        step_after(StepView::Rename { from, to }, Err(error)) == (StepView::Copy { from, to }),
        step_after(StepView::Copy { from, to }, Ok(())) == (StepView::Remove { path: from }),
        step_after(StepView::Copy { from, to }, Err(error)) == StepView::Finished(Err(error)),
        step_after(StepView::Remove { path: from }, removed) == StepView::Finished(Ok(())),
{
}

/// A file is fetched into the file that was created for it, from the path that was told; the first
/// error ends the download, and what has ended stays so.
pub proof fn law_a_created_file_is_fetched_into(
    from: Seq<char>,
    to: Seq<char>,
    error: Seq<char>,
    end: Result<(), Seq<char>>,
    late: Result<(), Seq<char>>,
)
    ensures
        step_after(StepView::Create { from, to }, Ok(())) == (StepView::Fetch { from, to }),
        step_after(StepView::Create { from, to }, Err(error)) == StepView::Finished(Err(error)),
        step_after(StepView::Fetch { from, to }, end) == StepView::Finished(end),
        step_after(StepView::Finished(end), late) == StepView::Finished(end),
{
}

/// The queue hears of a success as done, and three seconds later that the task may leave; of a
/// failure it hears the error, and nothing more. It is always the task of the download.
pub proof fn law_the_queue_hears_the_outcome(task_id: Seq<char>, error: Seq<char>)
    ensures
        outcome_event(task_id, Ok(())) == EventView::TaskDone(task_id),
        late_event(task_id, Ok(())) == Some(EventView::TaskRemove(task_id)),
        outcome_event(task_id, Err(error)) == EventView::TaskError(task_id, error),
        late_event(task_id, Err(error)) is None,
        REMOVE_DELAY_SECS == 3,
{
}

/// The view of an outcome tells whether it is a success, and the error of a failure; that of a
/// step its kind and its paths.
pub proof fn law_step_views_are_complete(step: Step, outcome: Result<(), String>)
    ensures
        outcome is Ok ==> outcome_view(outcome) == Ok::<(), Seq<char>>(()),
        outcome matches Err(e) ==> outcome_view(outcome) == Err::<(), Seq<char>>(e@),
        match step {
            Step::Rename { from, to } => step@ == (StepView::Rename { from: from@, to: to@ }),
            Step::Copy { from, to } => step@ == (StepView::Copy { from: from@, to: to@ }),
            Step::Remove { path } => step@ == (StepView::Remove { path: path@ }),
            Step::Create { from, to } => step@ == (StepView::Create { from: from@, to: to@ }),
            Step::Fetch { from, to } => step@ == (StepView::Fetch { from: from@, to: to@ }),
            Step::Finished(r) => step@ == StepView::Finished(outcome_view(r)),
        },
{
}

} // verus!
