//! The values that the parts of the bot exchange: download tasks, the events that change them,
//! download jobs and outgoing messages.
//!
//! Each type that owns strings has a mathematical view of the same shape, in which a string is
//! the sequence of its characters.

use vstd::prelude::*;

verus! {

/// How far a download has come.
#[derive(Debug, PartialEq, Eq)]
pub enum DownloadState {
    Queued,
    Downloading,
    Done,
    Error(String),
    /// Waits for the user to confirm the download of a large file.
    AwaitingConfirmation,
}

/// The view of a `DownloadState`.
pub enum StateView {
    Queued,
    Downloading,
    Done,
    Error(Seq<char>),
    AwaitingConfirmation,
}

impl View for DownloadState {
    type V = StateView;

    open spec fn view(&self) -> StateView {
        match self {
            DownloadState::Queued => StateView::Queued,
            DownloadState::Downloading => StateView::Downloading,
            DownloadState::Done => StateView::Done,
            DownloadState::Error(e) => StateView::Error(e@),
            DownloadState::AwaitingConfirmation => StateView::AwaitingConfirmation,
        }
    }
}

/// One line of the download queue.
#[derive(Debug, PartialEq, Eq)]
pub struct FileTask {
    pub id: String,
    /// The message that brought the file.
    pub msg_id: i32,
    pub name_display: String,
    pub state: DownloadState,
    pub link: String,
    pub size_bytes: u32,
    pub file_name: String,
    /// What to download; a rejected file has none.
    pub file_id: Option<String>,
}

/// The view of a `FileTask`.
pub struct TaskView {
    pub id: Seq<char>,
    pub msg_id: i32,
    pub name_display: Seq<char>,
    pub state: StateView,
    pub link: Seq<char>,
    pub size_bytes: u32,
    pub file_name: Seq<char>,
    pub file_id: Option<Seq<char>>,
}

impl View for FileTask {
    type V = TaskView;

    open spec fn view(&self) -> TaskView {
        TaskView {
            id: self.id@,
            msg_id: self.msg_id,
            name_display: self.name_display@,
            state: self.state@,
            link: self.link@,
            size_bytes: self.size_bytes,
            file_name: self.file_name@,
            file_id: self.file_id.deep_view(),
        }
    }
}

impl DeepView for FileTask {
    type V = TaskView;

    open spec fn deep_view(&self) -> TaskView {
        self@
    }
}

impl TaskView {
    /// The same task in another state.
    pub open spec fn with_state(self, state: StateView) -> TaskView {
        TaskView { state, ..self }
    }
}

/// What happens to the queue of a chat.
#[derive(Debug, PartialEq, Eq)]
pub enum DownloadEvent {
    /// A new file was added to the queue.
    TaskAdded(FileTask),
    /// The download of the task with this id started.
    TaskStarted(String),
    /// The download finished successfully.
    TaskDone(String),
    /// The download failed: task id and error message.
    TaskError(String, String),
    /// Remove the task from the list.
    TaskRemove(String),
    /// The user sent a new message, so the status has to move to the bottom.
    UserMessageSent(i32),
    /// The user asked to clear the errors.
    ClearErrors,
    /// The user confirmed a large file: task id, destination folder, local mode.
    ConfirmLargeDownload(String, String, bool),
}

/// The view of a `DownloadEvent`.
pub enum EventView {
    TaskAdded(TaskView),
    TaskStarted(Seq<char>),
    TaskDone(Seq<char>),
    TaskError(Seq<char>, Seq<char>),
    TaskRemove(Seq<char>),
    UserMessageSent(i32),
    ClearErrors,
    ConfirmLargeDownload(Seq<char>, Seq<char>, bool),
}

impl View for DownloadEvent {
    type V = EventView;

    open spec fn view(&self) -> EventView {
        match self {
            DownloadEvent::TaskAdded(t) => EventView::TaskAdded(t@),
            DownloadEvent::TaskStarted(id) => EventView::TaskStarted(id@),
            DownloadEvent::TaskDone(id) => EventView::TaskDone(id@),
            DownloadEvent::TaskError(id, e) => EventView::TaskError(id@, e@),
            DownloadEvent::TaskRemove(id) => EventView::TaskRemove(id@),
            DownloadEvent::UserMessageSent(m) => EventView::UserMessageSent(*m),
            DownloadEvent::ClearErrors => EventView::ClearErrors,
            DownloadEvent::ConfirmLargeDownload(id, dir, local) => EventView::ConfirmLargeDownload(
                id@,
                dir@,
                *local,
            ),
        }
    }
}

impl DeepView for DownloadEvent {
    type V = EventView;

    open spec fn deep_view(&self) -> EventView {
        self@
    }
}

/// One download to run.
#[derive(Debug, PartialEq, Eq)]
pub struct DownloadJob {
    pub task_id: String,
    pub file_id: String,
    pub file_name: String,
    pub dest_dir: String,
    pub local_mode: bool,
}

/// The view of a `DownloadJob`.
pub struct JobView {
    pub task_id: Seq<char>,
    pub file_id: Seq<char>,
    pub file_name: Seq<char>,
    pub dest_dir: Seq<char>,
    pub local_mode: bool,
}

impl View for DownloadJob {
    type V = JobView;

    open spec fn view(&self) -> JobView {
        JobView {
            task_id: self.task_id@,
            file_id: self.file_id@,
            file_name: self.file_name@,
            dest_dir: self.dest_dir@,
            local_mode: self.local_mode,
        }
    }
}

impl DeepView for DownloadJob {
    type V = JobView;

    open spec fn deep_view(&self) -> JobView {
        self@
    }
}

/// A button below a message: its label, and the data that pressing it sends back.
#[derive(Debug, PartialEq, Eq)]
pub struct Button {
    pub text: String,
    pub data: String,
}

/// The view of a `Button`.
pub struct ButtonView {
    pub text: Seq<char>,
    pub data: Seq<char>,
}

impl View for Button {
    type V = ButtonView;

    open spec fn view(&self) -> ButtonView {
        ButtonView { text: self.text@, data: self.data@ }
    }
}

impl DeepView for Button {
    type V = ButtonView;

    open spec fn deep_view(&self) -> ButtonView {
        self@
    }
}

/// A message in HTML that answers another one; its buttons, if any, stand in one row.
#[derive(Debug, PartialEq, Eq)]
pub struct Reply {
    pub reply_to: i32,
    pub text: String,
    pub keyboard: Option<Vec<Button>>,
}

/// The view of a `Reply`.
pub struct ReplyView {
    pub reply_to: i32,
    pub text: Seq<char>,
    pub keyboard: Option<Seq<ButtonView>>,
}

impl View for Reply {
    type V = ReplyView;

    open spec fn view(&self) -> ReplyView {
        ReplyView {
            reply_to: self.reply_to,
            text: self.text@,
            keyboard: self.keyboard.deep_view(),
        }
    }
}

impl DeepView for Reply {
    type V = ReplyView;

    open spec fn deep_view(&self) -> ReplyView {
        self@
    }
}

/// The view of a task tells each of its parts.
pub proof fn law_task_views_are_complete(t: FileTask)
    ensures
        t@.id == t.id@,
        t@.msg_id == t.msg_id,
        t@.name_display == t.name_display@,
        t@.link == t.link@,
        t@.size_bytes == t.size_bytes,
        t@.file_name == t.file_name@,
        t.file_id matches Some(f) ==> t@.file_id == Some(f@),
        t.file_id is None ==> t@.file_id is None,
        t.deep_view() == t@,
        match t.state {
            DownloadState::Queued => t@.state is Queued,
            DownloadState::Downloading => t@.state is Downloading,
            DownloadState::Done => t@.state is Done,
            DownloadState::Error(e) => t@.state == StateView::Error(e@),
            DownloadState::AwaitingConfirmation => t@.state is AwaitingConfirmation,
        },
{
}

/// The view of an event tells its kind and each of its parts.
pub proof fn law_event_views_are_complete(event: DownloadEvent)
    ensures
        event.deep_view() == event@,
        match event {
            DownloadEvent::TaskAdded(t) => event@ == EventView::TaskAdded(t@),
            DownloadEvent::TaskStarted(id) => event@ == EventView::TaskStarted(id@),
            DownloadEvent::TaskDone(id) => event@ == EventView::TaskDone(id@),
            DownloadEvent::TaskError(id, e) => event@ == EventView::TaskError(id@, e@),
            DownloadEvent::TaskRemove(id) => event@ == EventView::TaskRemove(id@),
            DownloadEvent::UserMessageSent(m) => event@ == EventView::UserMessageSent(m),
            DownloadEvent::ClearErrors => event@ is ClearErrors,
            DownloadEvent::ConfirmLargeDownload(id, dir, local) => event@
                == EventView::ConfirmLargeDownload(id@, dir@, local),
        },
{
}

/// The views of a job, a button and a message tell each of their parts.
pub proof fn law_job_and_message_views_are_complete(job: DownloadJob, button: Button, reply: Reply)
    ensures
        job@.task_id == job.task_id@,
        job@.file_id == job.file_id@,
        job@.file_name == job.file_name@,
        job@.dest_dir == job.dest_dir@,
        job@.local_mode == job.local_mode,
        job.deep_view() == job@,
        button@.text == button.text@,
        button@.data == button.data@,
        button.deep_view() == button@,
        reply@.reply_to == reply.reply_to,
        reply@.text == reply.text@,
        reply.deep_view() == reply@,
        reply.keyboard is None ==> reply@.keyboard is None,
        reply.keyboard matches Some(row) ==> reply@.keyboard matches Some(view) && view.len()
            == row@.len() && forall|i: int|
            0 <= i < row@.len() ==> #[trigger] view[i] == row@[i]@,
{
}

} // verus!
