//! What the bot does with a message that brings a file.

use vstd::prelude::*;
use crate::link::{build_message_link, known_link, linkable, message_link, public_url};
use crate::size::{format_size, size_text};
use crate::startup::Config;
use crate::status::{append_reference, reference};
use crate::tasks::{
    Button, ButtonView, DownloadEvent, DownloadJob, DownloadState, EventView, FileTask, JobView, Reply,
    ReplyView, StateView, TaskView,
};
use crate::text::{append_decimal, decimal, joined, owned};

verus! {

/// The largest file that Telegram's own server hands out: 20 MB.
pub const MAX_FILE_SIZE: u32 = 20 * 1024 * 1024;

/// The largest file that local mode downloads unasked: 150 MB.
pub const MAX_FILE_SIZE_LOCAL: u32 = 150 * 1024 * 1024;

/// The largest file that local mode downloads at all: 2000 MB.
pub const MAX_FILE_SIZE_LOCAL_CONFIRM: u32 = 2000 * 1024 * 1024;

/// A file without a name of its own.
#[derive(Debug, PartialEq, Eq)]
pub struct Media {
    pub file_id: String,
    pub size: u32,
}

/// A file that may have a name.
#[derive(Debug, PartialEq, Eq)]
pub struct NamedMedia {
    pub file_id: String,
    pub file_name: Option<String>,
    pub size: u32,
}

/// What the bot reads of a message. A photo comes in several sizes, the largest last.
#[derive(Debug, PartialEq, Eq)]
pub struct IncomingMessage {
    pub chat_id: i64,
    pub chat_username: Option<String>,
    pub msg_id: i32,
    pub photo: Option<Vec<Media>>,
    pub document: Option<NamedMedia>,
    pub video: Option<NamedMedia>,
    pub animation: Option<NamedMedia>,
    pub video_note: Option<Media>,
}

/// The file that a message brings.
#[derive(Debug, PartialEq, Eq)]
pub struct Content {
    pub file_id: String,
    pub name: String,
    pub size: u32,
}

/// The view of a `Content`.
pub struct ContentView {
    pub file_id: Seq<char>,
    pub name: Seq<char>,
    pub size: u32,
}

impl View for Content {
    type V = ContentView;

    open spec fn view(&self) -> ContentView {
        ContentView { file_id: self.file_id@, name: self.name@, size: self.size }
    }
}

impl DeepView for Content {
    type V = ContentView;

    open spec fn deep_view(&self) -> ContentView {
        self@
    }
}

/// A file under its own name, or under a stock name where it has none.
pub open spec fn named_content(m: NamedMedia, stock: Seq<char>) -> ContentView {
    ContentView {
        file_id: m.file_id@,
        name: match m.file_name {
            Some(n) => n@,
            None => stock,
        },
        size: m.size,
    }
}

/// The file that a message brings: the last size of a photo, else a document, a video, an
/// animation or a video note, in this order.
pub open spec fn content_of(msg: IncomingMessage) -> Option<ContentView> {
    if msg.photo is Some {
        let sizes = msg.photo->0@;
        if sizes.len() > 0 {
            Some(
                ContentView {
                    file_id: sizes.last().file_id@,
                    name: "photo"@,
                    size: sizes.last().size,
                },
            )
        } else {
            None
        }
    } else if msg.document is Some {
        Some(named_content(msg.document->0, "doc"@))
    } else if msg.video is Some {
        Some(named_content(msg.video->0, "video"@))
    } else if msg.animation is Some {
        Some(named_content(msg.animation->0, "gif"@))
    } else if msg.video_note is Some {
        Some(
            ContentView {
                file_id: msg.video_note->0.file_id@,
                name: "video_note"@,
                size: msg.video_note->0.size,
            },
        )
    } else {
        None
    }
}

fn named(m: &NamedMedia, stock: &str) -> (r: Content)
    ensures
        r@ == named_content(*m, stock@),
{
    let name: String = match &m.file_name {
        Some(n) => n.clone(),
        None => owned(stock),
    };
    Content { file_id: m.file_id.clone(), name, size: m.size }
}

/// Finds the file that a message brings.
pub fn identify_content(msg: &IncomingMessage) -> (r: Option<Content>)
    ensures
        r.deep_view() == content_of(*msg),
{
    if let Some(sizes) = &msg.photo {
        let n: usize = sizes.len();
        if n > 0 {
            let p: &Media = &sizes[n - 1];
            Some(Content { file_id: p.file_id.clone(), name: owned("photo"), size: p.size })
        } else {
            None
        }
    } else if let Some(doc) = &msg.document {
        Some(named(doc, "doc"))
    } else if let Some(video) = &msg.video {
        Some(named(video, "video"))
    } else if let Some(anim) = &msg.animation {
        Some(named(anim, "gif"))
    } else if let Some(vn) = &msg.video_note {
        Some(Content { file_id: vn.file_id.clone(), name: owned("video_note"), size: vn.size })
    } else {
        None
    }
}

/// The id of the task for a file: the message that brought it, and the file.
pub open spec fn task_id(msg_id: i32, file_id: Seq<char>) -> Seq<char> {
    decimal(msg_id as int) + "_"@ + file_id
}

/// The id of the task for a file.
pub fn make_task_id(msg_id: i32, file_id: &str) -> (r: String)
    ensures
        r@ == task_id(msg_id, file_id@),
{
    let mut r: String = String::new();
    append_decimal(&mut r, msg_id as i64);
    r.append("_");
    r.append(file_id);
    assert(r@ =~= task_id(msg_id, file_id@));
    r
}

/// What becomes of a file, by its size alone.
#[derive(Clone, Copy, Debug, PartialEq, Eq, Structural)]
pub enum Verdict {
    /// Download it.
    Accept,
    /// Ask first.
    Ask,
    /// Never download it.
    Reject,
}

/// The rule on sizes.
pub open spec fn verdict(size: u32, local_mode: bool) -> Verdict {
    if local_mode {
        if size > MAX_FILE_SIZE_LOCAL_CONFIRM {
            Verdict::Reject
        } else if size > MAX_FILE_SIZE_LOCAL {
            Verdict::Ask
        } else {
            Verdict::Accept
        }
    } else if size > MAX_FILE_SIZE {
        Verdict::Reject
    } else {
        Verdict::Accept
    }
}

/// The rule on sizes.
pub fn judge(size: u32, local_mode: bool) -> (r: Verdict)
    ensures
        r == verdict(size, local_mode),
{
    if local_mode {
        if size > MAX_FILE_SIZE_LOCAL_CONFIRM {
            Verdict::Reject
        } else if size > MAX_FILE_SIZE_LOCAL {
            Verdict::Ask
        } else {
            Verdict::Accept
        }
    } else if size > MAX_FILE_SIZE {
        Verdict::Reject
    } else {
        Verdict::Accept
    }
}

/// What is to be done about a file: events for the queue of the chat first, the answer to the
/// user next, a download last.
#[derive(Debug, PartialEq, Eq)]
pub struct FilePlan {
    pub events: Vec<DownloadEvent>,
    pub reply: Option<Reply>,
    pub start: Option<DownloadJob>,
}

/// The view of a `FilePlan`.
pub struct PlanView {
    pub events: Seq<EventView>,
    pub reply: Option<ReplyView>,
    pub start: Option<JobView>,
}

impl View for FilePlan {
    type V = PlanView;

    open spec fn view(&self) -> PlanView {
        PlanView {
            events: self.events.deep_view(),
            reply: self.reply.deep_view(),
            start: self.start.deep_view(),
        }
    }
}

impl DeepView for FilePlan {
    type V = PlanView;

    open spec fn deep_view(&self) -> PlanView {
        self@
    }
}

/// The name of a message in the queue.
pub open spec fn media_name(msg_id: i32) -> Seq<char> {
    "Media #"@ + decimal(msg_id as int)
}

/// The error of a file that is too large.
pub open spec fn rejection_error(local_mode: bool) -> Seq<char> {
    if local_mode {
        "Too large (>"@ + size_text(MAX_FILE_SIZE_LOCAL_CONFIRM as nat) + ")"@
    } else {
        "Too large (>20MB)"@
    }
}

/// The answer to a file that is too large.
pub open spec fn rejection_text(msg_id: i32, size: u32, link: Seq<char>, local_mode: bool) -> Seq<
    char,
> {
    "❌ <b>Error:</b> "@ + reference(link, "File"@, media_name(msg_id)) + " is too large ("@
        + size_text(size as nat) + if local_mode {
        ").\nMaximum file size in local mode is "@ + size_text(MAX_FILE_SIZE_LOCAL_CONFIRM as nat)
            + "."@
    } else {
        ")."@
    }
}

/// The question about a large file.
pub open spec fn question_text(msg_id: i32, size: u32, link: Seq<char>) -> Seq<char> {
    "⚠️ "@ + reference(link, "File"@, media_name(msg_id)) + " is large ("@ + size_text(size as nat)
        + ").\nDownload may take time. Continue?"@
}

/// The data of the button that confirms the download of a task.
pub open spec fn confirm_data(id: Seq<char>) -> Seq<char> {
    "confirm_download:"@ + id
}

/// The data of the button that cancels a task.
pub open spec fn cancel_data(id: Seq<char>) -> Seq<char> {
    "cancel_download:"@ + id
}

/// The buttons below the question about a large file.
pub open spec fn question_keyboard(id: Seq<char>, size: u32) -> Seq<ButtonView> {
    seq![
        ButtonView {
            text: "✅ Download ("@ + size_text(size as nat) + ")"@,
            data: confirm_data(id),
        },
        ButtonView { text: "❌ Cancel"@, data: cancel_data(id) },
    ]
}

/// The task for a file, as it enters the queue.
pub open spec fn new_task(msg_id: i32, content: ContentView, link: Seq<char>, local_mode: bool) -> TaskView {
    let judged = verdict(content.size, local_mode);
    TaskView {
        id: task_id(msg_id, content.file_id),
        msg_id,
        name_display: media_name(msg_id),
        state: match judged {
            Verdict::Accept => StateView::Queued,
            Verdict::Ask => StateView::AwaitingConfirmation,
            Verdict::Reject => StateView::Error(rejection_error(local_mode)),
        },
        link,
        size_bytes: content.size,
        file_name: content.name,
        file_id: if judged is Reject {
            None
        } else {
            Some(content.file_id)
        },
    }
}

/// The download of a file.
pub open spec fn new_job(msg_id: i32, content: ContentView, dest_dir: Seq<char>, local_mode: bool) -> JobView {
    JobView {
        task_id: task_id(msg_id, content.file_id),
        file_id: content.file_id,
        file_name: content.name,
        dest_dir,
        local_mode,
    }
}

/// The answer to a file that is not downloaded at once.
pub open spec fn new_reply(msg_id: i32, content: ContentView, link: Seq<char>, local_mode: bool) -> Option<ReplyView> {
    match verdict(content.size, local_mode) {
        Verdict::Accept => None,
        Verdict::Ask => Some(
            ReplyView {
                reply_to: msg_id,
                text: question_text(msg_id, content.size, link),
                keyboard: Some(
                    question_keyboard(task_id(msg_id, content.file_id), content.size),
                ),
            },
        ),
        Verdict::Reject => Some(
            ReplyView {
                reply_to: msg_id,
                text: rejection_text(msg_id, content.size, link, local_mode),
                keyboard: None,
            },
        ),
    }
}

/// The plan for a file that is not on disk yet.
pub open spec fn plan_for(
    msg_id: i32,
    content: ContentView,
    link: Seq<char>,
    dest_dir: Seq<char>,
    local_mode: bool,
) -> PlanView {
    PlanView {
        events: seq![
            EventView::UserMessageSent(msg_id),
            EventView::TaskAdded(new_task(msg_id, content, link, local_mode)),
        ],
        reply: new_reply(msg_id, content, link, local_mode),
        start: if verdict(content.size, local_mode) is Accept {
            Some(new_job(msg_id, content, dest_dir, local_mode))
        } else {
            None
        },
    }
}

/// The plan for a file that is on disk already: tell the user, and leave the queue alone.
pub open spec fn plan_for_existing(msg_id: i32) -> PlanView {
    PlanView {
        events: Seq::empty(),
        reply: Some(
            ReplyView {
                reply_to: msg_id,
                text: "ℹ️ <b>File already exists</b> - skipping download."@,
                keyboard: None,
            },
        ),
        start: None,
    }
}

fn make_media_name(msg_id: i32) -> (r: String)
    ensures
        r@ == media_name(msg_id),
{
    let mut r: String = owned("Media #");
    append_decimal(&mut r, msg_id as i64);
    r
}

fn make_rejection_error(local_mode: bool) -> (r: String)
    ensures
        r@ == rejection_error(local_mode),
{
    if local_mode {
        let mut r: String = owned("Too large (>");
        let limit: String = format_size(MAX_FILE_SIZE_LOCAL_CONFIRM);
        r.append(limit.as_str());
        r.append(")");
        r
    } else {
        owned("Too large (>20MB)")
    }
}

fn make_rejection_text(msg_id: i32, size: u32, link: &str, local_mode: bool) -> (r: String)
    ensures
        r@ == rejection_text(msg_id, size, link@, local_mode),
{
    let mut r: String = owned("❌ <b>Error:</b> ");
    let plain: String = make_media_name(msg_id);
    append_reference(&mut r, link, "File", plain.as_str());
    r.append(" is too large (");
    let size_str: String = format_size(size);
    r.append(size_str.as_str());
    if local_mode {
        r.append(").\nMaximum file size in local mode is ");
        let limit: String = format_size(MAX_FILE_SIZE_LOCAL_CONFIRM);
        r.append(limit.as_str());
        r.append(".");
    } else {
        r.append(").");
    }
    assert(r@ =~= rejection_text(msg_id, size, link@, local_mode));
    r
}

fn make_question_text(msg_id: i32, size: u32, link: &str) -> (r: String)
    ensures
        r@ == question_text(msg_id, size, link@),
{
    let mut r: String = owned("⚠️ ");
    let plain: String = make_media_name(msg_id);
    append_reference(&mut r, link, "File", plain.as_str());
    r.append(" is large (");
    let size_str: String = format_size(size);
    r.append(size_str.as_str());
    r.append(").\nDownload may take time. Continue?");
    assert(r@ =~= question_text(msg_id, size, link@));
    r
}

fn make_question_keyboard(id: &str, size: u32) -> (r: Vec<Button>)
    ensures
        r.deep_view() == question_keyboard(id@, size),
{
    let mut label: String = owned("✅ Download (");
    let size_str: String = format_size(size);
    label.append(size_str.as_str());
    label.append(")");
    let mut r: Vec<Button> = Vec::new();
    r.push(Button { text: label, data: joined("confirm_download:", id) });
    r.push(Button { text: owned("❌ Cancel"), data: joined("cancel_download:", id) });
    assert(r.deep_view() =~= question_keyboard(id@, size));
    r
}

/// The plan for a file that is not on disk yet, given the link to its message.
pub fn plan_download(msg_id: i32, content: Content, link: String, config: &Config) -> (r: FilePlan)
    ensures
        r@ == plan_for(msg_id, content@, link@, config.destination@, config.local_mode),
{
    let local_mode: bool = config.local_mode;
    let id: String = make_task_id(msg_id, content.file_id.as_str());
    let size: u32 = content.size;
    let (state, reply, file_id, start) = match judge(size, local_mode) {
        Verdict::Reject => {
            let text: String = make_rejection_text(msg_id, size, link.as_str(), local_mode);
            (
                DownloadState::Error(make_rejection_error(local_mode)),
                Some(Reply { reply_to: msg_id, text, keyboard: None }),
                None,
                None,
            )
        },
        Verdict::Ask => {
            let text: String = make_question_text(msg_id, size, link.as_str());
            let keyboard: Vec<Button> = make_question_keyboard(id.as_str(), size);
            (
                DownloadState::AwaitingConfirmation,
                Some(Reply { reply_to: msg_id, text, keyboard: Some(keyboard) }),
                Some(content.file_id.clone()),
                None,
            )
        },
        Verdict::Accept => {
            let job = DownloadJob {
                task_id: id.clone(),
                file_id: content.file_id.clone(),
                file_name: content.name.clone(),
                dest_dir: config.destination.clone(),
                local_mode,
            };
            (DownloadState::Queued, None, Some(content.file_id.clone()), Some(job))
        },
    };
    let task = FileTask {
        id,
        msg_id,
        name_display: make_media_name(msg_id),
        state,
        link,
        size_bytes: size,
        file_name: content.name,
        file_id,
    };
    let mut events: Vec<DownloadEvent> = Vec::new();
    events.push(DownloadEvent::UserMessageSent(msg_id));
    events.push(DownloadEvent::TaskAdded(task));
    proof {
        let expected = plan_for(msg_id, content@, link@, config.destination@, config.local_mode);
        assert(task@ == new_task(msg_id, content@, link@, local_mode));
        assert(events.deep_view() =~= expected.events);
    }
    FilePlan { events, reply, start }
}

/// What is to be done about a message, given whether the file that it brings is on disk already.
/// A message without a file is ignored.
pub fn file_handler(msg: &IncomingMessage, config: &Config, on_disk: bool) -> (r: Option<FilePlan>)
    requires
        on_disk || content_of(*msg) is None || linkable(
            msg.chat_id,
            msg.chat_username.deep_view(),
        ),
    ensures
        match content_of(*msg) {
            Some(content) => r.deep_view() == Some(
                if on_disk {
                    plan_for_existing(msg.msg_id)
                } else {
                    plan_for(
                        msg.msg_id,
                        content,
                        message_link(
                            public_url(msg.chat_id, msg.chat_username.deep_view(), msg.msg_id),
                            msg.chat_id,
                            msg.msg_id,
                        ),
                        config.destination@,
                        config.local_mode,
                    )
                },
            ),
            None => r is None,
        },
        content_of(*msg) matches Some(content) ==> !on_disk ==> (known_link(
            msg.chat_id,
            msg.chat_username.deep_view(),
            msg.msg_id,
        ) matches Some(link) ==> r.deep_view() == Some(
            plan_for(msg.msg_id, content, link, config.destination@, config.local_mode),
        )),
{
    let content: Content = match identify_content(msg) {
        Some(content) => content,
        None => {
            return None;
        },
    };
    if on_disk {
        let reply = Reply {
            reply_to: msg.msg_id,
            text: owned("ℹ️ <b>File already exists</b> - skipping download."),
            keyboard: None,
        };
        let events: Vec<DownloadEvent> = Vec::new();
        assert(events.deep_view() =~= Seq::<EventView>::empty());
        return Some(FilePlan { events, reply: Some(reply), start: None });
    }
    let username: Option<&str> = match &msg.chat_username {
        Some(u) => Some(u.as_str()),
        None => None,
    };
    let link: String = build_message_link(msg.chat_id, username, msg.msg_id);
    Some(plan_download(msg.msg_id, content, link, config))
}

/// Of a photo the last size is taken. Where the sizes ascend, none of them is larger.
pub proof fn law_photos_come_in_full_size(msg: IncomingMessage)
    requires
        msg.photo is Some,
    ensures
        ({
            let sizes = msg.photo->0@;
            &&& sizes.len() == 0 ==> content_of(msg) is None
            &&& sizes.len() > 0 ==> content_of(msg) == Some(
                ContentView {
                    file_id: sizes[sizes.len() - 1].file_id@,
                    name: "photo"@,
                    size: sizes[sizes.len() - 1].size,
                },
            )
            &&& sizes.len() > 0 && (forall|i: int, j: int|
                0 <= i < j < sizes.len() ==> (#[trigger] sizes[i]).size <= (
                #[trigger] sizes[j]).size) ==> forall|i: int|
                0 <= i < sizes.len() ==> (#[trigger] sizes[i]).size <= content_of(msg)->0.size
        }),
{
}

/// Without a photo, a message brings its document, else its video, else its animation, else its
/// video note, and without any of these nothing. A file keeps its id, its size and the name that
/// it has; each kind has a stock name for the others.
pub proof fn law_other_files_keep_their_names(msg: IncomingMessage)
    requires
        msg.photo is None,
    ensures
        ({
            let file = match (msg.document, msg.video, msg.animation) {
                (Some(m), _, _) => Some((m, "doc"@)),
                (None, Some(m), _) => Some((m, "video"@)),
                (None, None, Some(m)) => Some((m, "gif"@)),
                (None, None, None) => None,
            };
            match (file, msg.video_note) {
                (Some((m, stock)), _) => {
                    &&& content_of(msg) is Some
                    &&& content_of(msg)->0.file_id == m.file_id@
                    &&& content_of(msg)->0.size == m.size
                    &&& m.file_name matches Some(n) ==> content_of(msg)->0.name == n@
                    &&& m.file_name is None ==> content_of(msg)->0.name == stock
                },
                (None, Some(m)) => content_of(msg) == Some(
                    ContentView { file_id: m.file_id@, name: "video_note"@, size: m.size },
                ),
                (None, None) => content_of(msg) is None,
            }
        }),
{
}

/// The limits: without a local server files of up to 20 MB are downloaded and larger ones are
/// rejected; with one, files of up to 150 MB are downloaded, the user is asked about those of up
/// to 2000 MB, and larger ones are rejected.
pub proof fn law_limits(size: u32)
    ensures
        verdict(size, false) is Accept <==> size <= 20_971_520,
        verdict(size, false) is Reject <==> size > 20_971_520,
        verdict(size, true) is Accept <==> size <= 157_286_400,
        verdict(size, true) is Ask <==> 157_286_400 < size <= 2_097_152_000,
        verdict(size, true) is Reject <==> size > 2_097_152_000,
{
}

/// Every plan tells the queue first of the message and then of its task. The task carries the
/// message, its link, and the size and the name of the file; its id is the number of the message,
/// an underscore and the id of the file.
pub proof fn law_plans_announce_message_and_task(
    msg_id: i32,
    content: ContentView,
    link: Seq<char>,
    dest_dir: Seq<char>,
    local_mode: bool,
)
    ensures
        ({
            let events = plan_for(msg_id, content, link, dest_dir, local_mode).events;
            &&& events.len() == 2
            &&& events[0] == EventView::UserMessageSent(msg_id)
            &&& events[1] matches EventView::TaskAdded(t) && {
                &&& t.id == decimal(msg_id as int) + "_"@ + content.file_id
                &&& t.msg_id == msg_id
                &&& t.name_display == "Media #"@ + decimal(msg_id as int)
                &&& t.link == link
                &&& t.size_bytes == content.size
                &&& t.file_name == content.name
            }
        }),
{
}

/// A file within the limit of the mode is queued and downloaded at once, in that mode, to the
/// given folder, and without an answer. The download belongs to the task.
pub proof fn law_small_files_are_downloaded_at_once(
    msg_id: i32,
    content: ContentView,
    link: Seq<char>,
    dest_dir: Seq<char>,
    local_mode: bool,
)
    requires
        content.size <= if local_mode {
            157_286_400u32
        } else {
            20_971_520u32
        },
    ensures
        ({
            let plan = plan_for(msg_id, content, link, dest_dir, local_mode);
            &&& plan.events[1] matches EventView::TaskAdded(t) && t.state is Queued && t.file_id
                == Some(content.file_id)
            &&& plan.reply is None
            &&& plan.start == Some(
                JobView {
                    task_id: plan.events[1]->TaskAdded_0.id,
                    file_id: content.file_id,
                    file_name: content.name,
                    dest_dir,
                    local_mode,
                },
            )
        }),
{
}

/// With a local server, a file above 150 MB and of up to 2000 MB waits: its task can be downloaded
/// but is not, and the answer asks about it, with its size, below a link to the message or its
/// name. One button confirms the very task, the other cancels it.
pub proof fn law_large_files_are_asked_about(
    msg_id: i32,
    content: ContentView,
    link: Seq<char>,
    dest_dir: Seq<char>,
)
    requires
        157_286_400 < content.size <= 2_097_152_000,
    ensures
        ({
            let plan = plan_for(msg_id, content, link, dest_dir, true);
            let size = size_text(content.size as nat);
            let file = if link.len() > 0 {
                "<a href=\""@ + link + "\">"@ + "File"@ + "</a>"@
            } else {
                "Media #"@ + decimal(msg_id as int)
            };
            &&& plan.start is None
            &&& plan.events[1] matches EventView::TaskAdded(t) && {
                &&& t.state is AwaitingConfirmation
                &&& t.file_id == Some(content.file_id)
                &&& plan.reply == Some(
                    ReplyView {
                        reply_to: msg_id,
                        text: "⚠️ "@ + file + " is large ("@ + size
                            + ").\nDownload may take time. Continue?"@,
                        keyboard: Some(
                            seq![
                                ButtonView {
                                    text: "✅ Download ("@ + size + ")"@,
                                    data: "confirm_download:"@ + t.id,
                                },
                                ButtonView {
                                    text: "❌ Cancel"@,
                                    data: "cancel_download:"@ + t.id,
                                },
                            ],
                        ),
                    },
                )
            }
        }),
{
}

/// A file above the limit of the mode is rejected: its task has failed and cannot be downloaded,
/// and the answer tells why, with the size of the file, and with a local server also the limit.
pub proof fn law_oversized_files_are_rejected(
    msg_id: i32,
    content: ContentView,
    link: Seq<char>,
    dest_dir: Seq<char>,
    local_mode: bool,
)
    requires
        content.size > if local_mode {
            2_097_152_000u32
        } else {
            20_971_520u32
        },
    ensures
        ({
            let plan = plan_for(msg_id, content, link, dest_dir, local_mode);
            let size = size_text(content.size as nat);
            let limit = size_text(2_097_152_000);
            let file = if link.len() > 0 {
                "<a href=\""@ + link + "\">"@ + "File"@ + "</a>"@
            } else {
                "Media #"@ + decimal(msg_id as int)
            };
            &&& plan.start is None
            &&& plan.events[1] matches EventView::TaskAdded(t) && {
                &&& t.file_id is None
                &&& t.state == StateView::Error(
                    if local_mode {
                        "Too large (>"@ + limit + ")"@
                    } else {
                        "Too large (>20MB)"@
                    },
                )
            }
            &&& plan.reply == Some(
                ReplyView {
                    reply_to: msg_id,
                    text: "❌ <b>Error:</b> "@ + file + " is too large ("@ + size + (
                    if local_mode {
                        ").\nMaximum file size in local mode is "@ + limit + "."@
                    } else {
                        ")."@
                    }),
                    keyboard: None,
                },
            )
        }),
{
}

/// A file that is on disk already is answered with just that, and the queue hears nothing of it.
pub proof fn law_existing_files_are_skipped(msg_id: i32)
    ensures
        ({
            let plan = plan_for_existing(msg_id);
            &&& plan.start is None
            &&& plan.events.len() == 0
            &&& plan.reply == Some(
                ReplyView {
                    reply_to: msg_id,
                    text: "ℹ️ <b>File already exists</b> - skipping download."@,
                    keyboard: None,
                },
            )
        }),
{
}

/// The views of a file and of a plan tell each of their parts.
pub proof fn law_plan_views_are_complete(content: Content, plan: FilePlan)
    ensures
        content@.file_id == content.file_id@,
        content@.name == content.name@,
        content@.size == content.size,
        content.deep_view() == content@,
        plan.deep_view() == plan@,
        plan@.events.len() == plan.events@.len(),
        forall|i: int| 0 <= i < plan.events@.len() ==> #[trigger] plan@.events[i] == plan.events@[i]@,
        plan.reply is None ==> plan@.reply is None,
        plan.reply matches Some(r) ==> plan@.reply == Some(r@),
        plan.start is None ==> plan@.start is None,
        plan.start matches Some(j) ==> plan@.start == Some(j@),
{
}

} // verus!
