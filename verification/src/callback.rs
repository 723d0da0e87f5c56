//! What the bot does when a button is pressed.

use vstd::prelude::*;
use crate::intake::{cancel_data, confirm_data};
use crate::startup::Config;
use crate::status::clear_errors_data;
use crate::tasks::{DownloadEvent, EventView};
use crate::text::{owned, same_text, strip_prefix};

verus! {

/// What a button asks for.
#[derive(Debug, PartialEq, Eq)]
pub enum Command {
    ClearErrors,
    /// Download the large file under this id.
    Confirm(String),
    /// Drop the file under this id.
    Cancel(String),
    /// Data that no button of the bot sends.
    Unknown,
}

/// The view of a `Command`.
pub enum CommandView {
    ClearErrors,
    Confirm(Seq<char>),
    Cancel(Seq<char>),
    Unknown,
}

impl View for Command {
    type V = CommandView;

    open spec fn view(&self) -> CommandView {
        match self {
            Command::ClearErrors => CommandView::ClearErrors,
            Command::Confirm(id) => CommandView::Confirm(id@),
            Command::Cancel(id) => CommandView::Cancel(id@),
            Command::Unknown => CommandView::Unknown,
        }
    }
}

/// The meaning of the data of a button.
pub open spec fn command_of(data: Seq<char>) -> CommandView {
    if data == clear_errors_data() {
        CommandView::ClearErrors
    } else if "confirm_download:"@.is_prefix_of(data) {
        CommandView::Confirm(data.skip("confirm_download:"@.len() as int))
    } else if "cancel_download:"@.is_prefix_of(data) {
        CommandView::Cancel(data.skip("cancel_download:"@.len() as int))
    } else {
        CommandView::Unknown
    }
}

/// Reads the data of a button.
pub fn parse_command(data: &str) -> (r: Command)
    ensures
        r@ == command_of(data@),
{
    if same_text(data, "clear_errors") {
        return Command::ClearErrors;
    }
    match strip_prefix(data, "confirm_download:") {
        Some(id) => {
            assert("confirm_download:"@.is_prefix_of(data@));
            assert(data@.skip("confirm_download:"@.len() as int) =~= id@);
            return Command::Confirm(id);
        },
        None => {},
    }
    match strip_prefix(data, "cancel_download:") {
        Some(id) => {
            assert("cancel_download:"@.is_prefix_of(data@));
            assert(data@.skip("cancel_download:"@.len() as int) =~= id@);
            Command::Cancel(id)
        },
        None => Command::Unknown,
    }
}

/// The message whose button was pressed.
#[derive(Clone, Copy, Debug, PartialEq, Eq, Structural)]
pub struct PressedMessage {
    pub chat_id: i64,
    pub msg_id: i32,
}

/// A new text for a message.
#[derive(Debug, PartialEq, Eq)]
pub struct MessageEdit {
    pub msg_id: i32,
    pub text: String,
}

/// The view of a `MessageEdit`.
pub struct EditView {
    pub msg_id: i32,
    pub text: Seq<char>,
}

impl View for MessageEdit {
    type V = EditView;

    open spec fn view(&self) -> EditView {
        EditView { msg_id: self.msg_id, text: self.text@ }
    }
}

impl DeepView for MessageEdit {
    type V = EditView;

    open spec fn deep_view(&self) -> EditView {
        self@
    }
}

/// What is to be done about a pressed button: an event for the queue of its chat first, the
/// answer to the press next, and once that is out, an edit of the message.
#[derive(Debug, PartialEq, Eq)]
pub struct CallbackPlan {
    pub chat_id: i64,
    pub event: Option<DownloadEvent>,
    pub answer: String,
    pub edit: Option<MessageEdit>,
}

/// The view of a `CallbackPlan`.
pub struct CallbackView {
    pub chat_id: i64,
    pub event: Option<EventView>,
    pub answer: Seq<char>,
    pub edit: Option<EditView>,
}

impl View for CallbackPlan {
    type V = CallbackView;

    open spec fn view(&self) -> CallbackView {
        CallbackView {
            chat_id: self.chat_id,
            event: self.event.deep_view(),
            answer: self.answer@,
            edit: self.edit.deep_view(),
        }
    }
}

impl DeepView for CallbackPlan {
    type V = CallbackView;

    open spec fn deep_view(&self) -> CallbackView {
        self@
    }
}

/// The event that a command stands for, with the options under which the bot runs.
pub open spec fn command_event(
    command: CommandView,
    dest_dir: Seq<char>,
    local_mode: bool,
) -> Option<EventView> {
    match command {
        CommandView::ClearErrors => Some(EventView::ClearErrors),
        CommandView::Confirm(id) => Some(EventView::ConfirmLargeDownload(id, dest_dir, local_mode)),
        CommandView::Cancel(id) => Some(EventView::TaskRemove(id)),
        CommandView::Unknown => None,
    }
}

/// The answer to a command.
pub open spec fn command_answer(command: CommandView) -> Seq<char> {
    match command {
        CommandView::ClearErrors => "Errors cleared"@,
        CommandView::Confirm(_) => "Download started..."@,
        CommandView::Cancel(_) => "Download cancelled"@,
        CommandView::Unknown => Seq::empty(),
    }
}

/// The text that replaces the question about a large file.
pub open spec fn command_edit(command: CommandView) -> Option<Seq<char>> {
    match command {
        CommandView::Confirm(_) => Some("✅ Download confirmed and started."@),
        CommandView::Cancel(_) => Some("❌ Download cancelled."@),
        _ => None,
    }
}

/// The plan for a command. A chat that has no queue yet gets its answer all the same.
pub open spec fn plan_command(
    command: CommandView,
    message: PressedMessage,
    has_queue: bool,
    dest_dir: Seq<char>,
    local_mode: bool,
) -> Option<CallbackView> {
    if command is Unknown {
        None
    } else {
        Some(
            CallbackView {
                chat_id: message.chat_id,
                event: if has_queue {
                    command_event(command, dest_dir, local_mode)
                } else {
                    None
                },
                answer: command_answer(command),
                edit: match command_edit(command) {
                    Some(text) => Some(EditView { msg_id: message.msg_id, text }),
                    None => None,
                },
            },
        )
    }
}

/// What is to be done about a pressed button, given whether its chat has a queue. A press without
/// data, on a message that is no longer accessible, or with data that no button of the bot sends,
/// is ignored.
pub fn callback_handler(
    data: Option<&str>,
    message: Option<PressedMessage>,
    has_queue: bool,
    config: &Config,
) -> (r: Option<CallbackPlan>)
    ensures
        data is Some && message is Some ==> r.deep_view() == plan_command(
            command_of(data->0@),
            message->0,
            has_queue,
            config.destination@,
            config.local_mode,
        ),
        data is None || message is None ==> r is None,
{
    match (data, message) {
        (Some(data), Some(message)) => {
            let (event, answer, edit) = match parse_command(data) {
                Command::ClearErrors => (DownloadEvent::ClearErrors, owned("Errors cleared"), None),
                Command::Confirm(id) => {
                    let event = DownloadEvent::ConfirmLargeDownload(
                        id,
                        config.destination.clone(),
                        config.local_mode,
                    );
                    let text: String = owned("✅ Download confirmed and started.");
                    (
                        event,
                        owned("Download started..."),
                        Some(MessageEdit { msg_id: message.msg_id, text }),
                    )
                },
                Command::Cancel(id) => {
                    let text: String = owned("❌ Download cancelled.");
                    (
                        DownloadEvent::TaskRemove(id),
                        owned("Download cancelled"),
                        Some(MessageEdit { msg_id: message.msg_id, text }),
                    )
                },
                Command::Unknown => {
                    return None;
                },
            };
            let event: Option<DownloadEvent> = if has_queue {
                Some(event)
            } else {
                None
            };
            Some(CallbackPlan { chat_id: message.chat_id, event, answer, edit })
        },
        _ => None,
    }
}

/// The edit that is left once the press was answered; where the answer failed, none is.
pub fn edit_after_answer(plan: CallbackPlan, answered: bool) -> (r: Option<MessageEdit>)
    ensures
        answered ==> r.deep_view() == plan@.edit,
        !answered ==> r is None,
{
    if answered {
        plan.edit
    } else {
        None
    }
}

/// The buttons of the bot are understood: the button that clears the errors, and for every task
/// those that confirm and cancel it, each mean what they say, and of the very task that they
/// were made for.
pub proof fn law_buttons_are_understood(id: Seq<char>)
    ensures
        command_of(clear_errors_data()) == CommandView::ClearErrors,
        command_of(confirm_data(id)) == CommandView::Confirm(id),
        command_of(cancel_data(id)) == CommandView::Cancel(id),
{
    reveal_strlit("clear_errors");
    reveal_strlit("confirm_download:");
    reveal_strlit("cancel_download:");
    let confirm = "confirm_download:"@;
    let cancel = "cancel_download:"@;
    assert(confirm_data(id)[1] == 'o');
    assert(cancel_data(id)[1] == 'a');
    assert(clear_errors_data()[1] == 'l');
    assert(confirm.is_prefix_of(confirm_data(id)));
    assert(confirm_data(id).skip(confirm.len() as int) =~= id);
    assert(cancel.is_prefix_of(cancel_data(id)));
    assert(cancel_data(id).skip(cancel.len() as int) =~= id);
    assert(!confirm.is_prefix_of(cancel_data(id))) by {
        assert(confirm[1] == 'o');
    }
}

/// Which data is understood: the text of the button that clears the errors, and the texts that
/// begin as those of the other two buttons do; what follows is the id of the task.
pub proof fn law_data_names_the_task(data: Seq<char>, id: Seq<char>)
    ensures
        command_of("clear_errors"@) == CommandView::ClearErrors,
        data == "confirm_download:"@ + id ==> command_of(data) == CommandView::Confirm(id),
        data == "cancel_download:"@ + id ==> command_of(data) == CommandView::Cancel(id),
        command_of(data) is Unknown <==> data != "clear_errors"@ && !"confirm_download:"@.is_prefix_of(
            data,
        ) && !"cancel_download:"@.is_prefix_of(data),
{
    law_buttons_are_understood(id);
}

/// A press on a button of the bot is answered in its chat, and tells the queue of the chat, if
/// there is one: to clear the errors, to download the very task in the mode and to the folder of
/// the bot, or to drop the very task. The question about a large file gives way to what became of
/// it, also where the chat has no queue. Other data changes nothing.
pub proof fn law_presses_reach_the_queue(
    id: Seq<char>,
    data: Seq<char>,
    message: PressedMessage,
    has_queue: bool,
    dest_dir: Seq<char>,
    local_mode: bool,
)
    ensures
        plan_command(command_of("clear_errors"@), message, has_queue, dest_dir, local_mode) == Some(
            CallbackView {
                chat_id: message.chat_id,
                event: if has_queue {
                    Some(EventView::ClearErrors)
                } else {
                    None
                },
                answer: "Errors cleared"@,
                edit: None,
            },
        ),
        plan_command(
            command_of("confirm_download:"@ + id),
            message,
            has_queue,
            dest_dir,
            local_mode,
        ) == Some(
            CallbackView {
                chat_id: message.chat_id,
                event: if has_queue {
                    Some(EventView::ConfirmLargeDownload(id, dest_dir, local_mode))
                } else {
                    None
                },
                answer: "Download started..."@,
                edit: Some(
                    EditView {
                        msg_id: message.msg_id,
                        text: "✅ Download confirmed and started."@,
                    },
                ),
            },
        ),
        plan_command(
            command_of("cancel_download:"@ + id),
            message,
            has_queue,
            dest_dir,
            local_mode,
        ) == Some(
            CallbackView {
                chat_id: message.chat_id,
                event: if has_queue {
                    Some(EventView::TaskRemove(id))
                } else {
                    None
                },
                answer: "Download cancelled"@,
                edit: Some(
                    EditView { msg_id: message.msg_id, text: "❌ Download cancelled."@ },
                ),
            },
        ),
        data != "clear_errors"@ && !"confirm_download:"@.is_prefix_of(data)
            && !"cancel_download:"@.is_prefix_of(data) ==> plan_command(
            command_of(data),
            message,
            has_queue,
            dest_dir,
            local_mode,
        ) is None,
{
    law_data_names_the_task(data, id);
    law_data_names_the_task("confirm_download:"@ + id, id);
    law_data_names_the_task("cancel_download:"@ + id, id);
}

/// The views of a command and of a plan tell each of their parts.
pub proof fn law_callback_views_are_complete(
    command: Command,
    edit: MessageEdit,
    plan: CallbackPlan,
)
    ensures
        match command {
            Command::ClearErrors => command@ is ClearErrors,
            Command::Confirm(id) => command@ == CommandView::Confirm(id@),
            Command::Cancel(id) => command@ == CommandView::Cancel(id@),
            Command::Unknown => command@ is Unknown,
        },
        edit@.msg_id == edit.msg_id,
        edit@.text == edit.text@,
        edit.deep_view() == edit@,
        plan.deep_view() == plan@,
        plan@.chat_id == plan.chat_id,
        plan@.answer == plan.answer@,
        plan.event is None ==> plan@.event is None,
        plan.event matches Some(e) ==> plan@.event == Some(e@),
        plan.edit is None ==> plan@.edit is None,
        plan.edit matches Some(e) ==> plan@.edit == Some(e@),
{
}

} // verus!
