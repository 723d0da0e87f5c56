//! The owner of a chat's queue. It takes events in, changes its state at once, and leaves the
//! network and the disk to its caller in the form of effects and of a rendering plan.

use vstd::prelude::*;
use std::collections::VecDeque;
use crate::queue::{
    clear_errors, find_task, position, remove_task, set_state, set_state_at, without_errors,
};
use crate::stats::Statistics;
use crate::status::{
    append_reference, generate_status_text, reference, status_keyboard, status_text,
};
use crate::tasks::{
    Button, ButtonView, DownloadEvent, DownloadJob, DownloadState, EventView, FileTask, JobView, Reply,
    ReplyView, StateView, TaskView,
};
use crate::text::owned;

verus! {

/// The state of one chat.
#[derive(Debug)]
pub struct Actor {
    pub tasks: VecDeque<FileTask>,
    /// The message that shows the status, if one stands in the chat.
    pub status_msg_id: Option<i32>,
    /// The latest message of the user.
    pub last_user_msg_id: i32,
    pub stats: Statistics,
    /// Something happened since the status was last rendered.
    pub dirty: bool,
}

/// The view of an `Actor`.
pub struct ActorView {
    pub tasks: Seq<TaskView>,
    pub status_msg_id: Option<i32>,
    pub last_user_msg_id: i32,
    pub stats: Statistics,
    pub dirty: bool,
}

impl View for Actor {
    type V = ActorView;

    open spec fn view(&self) -> ActorView {
        ActorView {
            tasks: self.tasks.deep_view(),
            status_msg_id: self.status_msg_id,
            last_user_msg_id: self.last_user_msg_id,
            stats: self.stats,
            dirty: self.dirty,
        }
    }
}

/// Work that an event leaves to the caller.
#[derive(Debug, PartialEq, Eq)]
pub enum Effect {
    /// Write the statistics of the chat to its file.
    SaveStatistics(Statistics),
    /// Send this message.
    Send(Reply),
    /// Run this download.
    StartDownload(DownloadJob),
}

/// The view of an `Effect`.
pub enum EffectView {
    SaveStatistics(Statistics),
    Send(ReplyView),
    StartDownload(JobView),
}

impl View for Effect {
    type V = EffectView;

    open spec fn view(&self) -> EffectView {
        match self {
            Effect::SaveStatistics(s) => EffectView::SaveStatistics(*s),
            Effect::Send(r) => EffectView::Send(r@),
            Effect::StartDownload(j) => EffectView::StartDownload(j@),
        }
    }
}

impl DeepView for Effect {
    type V = EffectView;

    open spec fn deep_view(&self) -> EffectView {
        self@
    }
}

/// The message that tells of a failed download.
pub open spec fn failure_text(t: TaskView, error: Seq<char>) -> Seq<char> {
    "❌ <b>Download Failed:</b> "@ + reference(t.link, t.file_name, t.file_name)
        + "\n<b>Error:</b> "@ + error
}

impl ActorView {
    /// The statistics can still count what this event reports.
    pub open spec fn accepts(self, event: EventView) -> bool {
        match event {
            EventView::TaskDone(id) => find_task(self.tasks, id) matches Some(i)
                ==> self.stats.can_record(self.tasks[i].size_bytes as nat),
            _ => true,
        }
    }

    /// The queue after an event.
    pub open spec fn tasks_after(self, event: EventView) -> Seq<TaskView> {
        match event {
            EventView::TaskAdded(t) => self.tasks.push(t),
            EventView::TaskStarted(id) => set_state(self.tasks, id, StateView::Downloading),
            EventView::TaskDone(id) => set_state(self.tasks, id, StateView::Done),
            EventView::TaskError(id, e) => set_state(self.tasks, id, StateView::Error(e)),
            EventView::TaskRemove(id) => remove_task(self.tasks, id),
            EventView::UserMessageSent(_) => self.tasks,
            EventView::ClearErrors => without_errors(self.tasks),
            EventView::ConfirmLargeDownload(id, _, _) => match find_task(self.tasks, id) {
                Some(i) => if self.tasks[i].file_id is Some {
                    set_state(self.tasks, id, StateView::Queued)
                } else {
                    self.tasks
                },
                None => self.tasks,
            },
        }
    }

    /// The statistics after an event.
    pub open spec fn stats_after(self, event: EventView) -> Statistics {
        match event {
            EventView::TaskDone(id) => match find_task(self.tasks, id) {
                Some(i) => self.stats.recorded(self.tasks[i].size_bytes as nat),
                None => self.stats,
            },
            _ => self.stats,
        }
    }

    /// The latest message of the user after an event.
    pub open spec fn last_user_msg_after(self, event: EventView) -> i32 {
        match event {
            EventView::UserMessageSent(m) => if m > self.last_user_msg_id {
                m
            } else {
                self.last_user_msg_id
            },
            _ => self.last_user_msg_id,
        }
    }

    /// The state after an event.
    pub open spec fn after(self, event: EventView) -> ActorView {
        ActorView {
            tasks: self.tasks_after(event),
            status_msg_id: self.status_msg_id,
            last_user_msg_id: self.last_user_msg_after(event),
            stats: self.stats_after(event),
            dirty: true,
        }
    }

    /// What an event leaves to be done outside.
    pub open spec fn effect(self, event: EventView) -> Option<EffectView> {
        match event {
            EventView::TaskDone(id) => if find_task(self.tasks, id) is Some {
                Some(EffectView::SaveStatistics(self.stats_after(event)))
            } else {
                None
            },
            EventView::TaskError(id, e) => match find_task(self.tasks, id) {
                Some(i) => Some(
                    EffectView::Send(
                        ReplyView {
                            reply_to: self.tasks[i].msg_id,
                            text: failure_text(self.tasks[i], e),
                            keyboard: None,
                        },
                    ),
                ),
                None => None,
            },
            EventView::ConfirmLargeDownload(id, dest_dir, local_mode) => match find_task(
                self.tasks,
                id,
            ) {
                Some(i) => match self.tasks[i].file_id {
                    Some(file_id) => Some(
                        EffectView::StartDownload(
                            JobView {
                                task_id: id,
                                file_id,
                                file_name: self.tasks[i].file_name,
                                dest_dir,
                                local_mode,
                            },
                        ),
                    ),
                    None => None,
                },
                None => None,
            },
            _ => None,
        }
    }

    /// The status message stands above the latest message of the user.
    pub open spec fn is_stale(self) -> bool {
        self.status_msg_id matches Some(sid) && self.last_user_msg_id > sid
    }
}

/// How to bring the status message up to date: delete the stale one first, if there is one; edit
/// the one that stands, or send a new one where none is left.
#[derive(Debug, PartialEq, Eq)]
pub struct UiUpdate {
    pub delete: Option<i32>,
    pub edit: Option<i32>,
    pub text: String,
    pub keyboard: Option<Vec<Button>>,
}

/// The view of a `UiUpdate`.
pub struct UiView {
    pub delete: Option<i32>,
    pub edit: Option<i32>,
    pub text: Seq<char>,
    pub keyboard: Option<Seq<ButtonView>>,
}

impl View for UiUpdate {
    type V = UiView;

    open spec fn view(&self) -> UiView {
        UiView {
            delete: self.delete,
            edit: self.edit,
            text: self.text@,
            keyboard: self.keyboard.deep_view(),
        }
    }
}

impl DeepView for UiUpdate {
    type V = UiView;

    open spec fn deep_view(&self) -> UiView {
        self@
    }
}

impl ActorView {
    /// The rendering plan for this state.
    pub open spec fn ui_update(self) -> UiView {
        UiView {
            delete: if self.is_stale() {
                self.status_msg_id
            } else {
                None
            },
            edit: if self.is_stale() {
                None
            } else {
                self.status_msg_id
            },
            text: status_text(self.tasks, self.stats),
            keyboard: status_keyboard(self.tasks),
        }
    }

    /// The state once a rendering plan was made: a stale message is forgotten.
    pub open spec fn rendered(self) -> ActorView {
        ActorView {
            status_msg_id: if self.is_stale() {
                None
            } else {
                self.status_msg_id
            },
            dirty: false,
            ..self
        }
    }

    /// The state once the status message was edited, or could not be.
    pub open spec fn edited(self, ok: bool) -> ActorView {
        ActorView {
            status_msg_id: if ok {
                self.status_msg_id
            } else {
                None
            },
            ..self
        }
    }

    /// The state once a new status message was sent, under the given id, or could not be.
    pub open spec fn sent(self, id: Option<i32>) -> ActorView {
        ActorView {
            status_msg_id: if id is Some {
                id
            } else {
                self.status_msg_id
            },
            ..self
        }
    }
}

impl Actor {
    /// An empty queue.
    pub fn new(stats: Statistics) -> (a: Actor)
        ensures
            a@ == (ActorView {
                tasks: Seq::empty(),
                status_msg_id: None,
                last_user_msg_id: 0,
                stats,
                dirty: false,
            }),
    {
        let a = Actor {
            tasks: VecDeque::new(),
            status_msg_id: None,
            last_user_msg_id: 0,
            stats,
            dirty: false,
        };
        assert(a.tasks.deep_view() =~= Seq::<TaskView>::empty());
        a
    }

    /// Tells whether `handle` may take this event: the statistics must not overflow.
    pub fn can_handle(&self, event: &DownloadEvent) -> (r: bool)
        ensures
            r == self@.accepts(event@),
    {
        match event {
            DownloadEvent::TaskDone(id) => {
                match position(&self.tasks, id) {
                    Some(i) => self.stats.has_room(self.tasks[i].size_bytes),
                    None => true,
                }
            },
            _ => true,
        }
    }

    /// Takes an event in, and gives back what it leaves to be done outside.
    pub fn handle(&mut self, event: DownloadEvent) -> (r: Option<Effect>)
        requires
            old(self)@.accepts(event@),
        ensures
            final(self)@ == old(self)@.after(event@),
            r.deep_view() == old(self)@.effect(event@),
    {
        self.dirty = true;
        match event {
            DownloadEvent::TaskAdded(t) => {
                self.tasks.push_back(t);
                assert(self.tasks.deep_view() =~= old(self).tasks.deep_view().push(t@));
                None
            },
            DownloadEvent::TaskStarted(tid) => {
                match position(&self.tasks, &tid) {
                    Some(i) => {
                        set_state_at(&mut self.tasks, i, DownloadState::Downloading);
                    },
                    None => {},
                }
                None
            },
            DownloadEvent::TaskDone(tid) => {
                match position(&self.tasks, &tid) {
                    Some(i) => {
                        let size: u32 = self.tasks[i].size_bytes;
                        set_state_at(&mut self.tasks, i, DownloadState::Done);
                        self.stats.record(size);
                        Some(Effect::SaveStatistics(self.stats))
                    },
                    None => None,
                }
            },
            DownloadEvent::TaskError(tid, err) => {
                match position(&self.tasks, &tid) {
                    Some(i) => {
                        let mut text: String = owned("❌ <b>Download Failed:</b> ");
                        append_reference(
                            &mut text,
                            self.tasks[i].link.as_str(),
                            self.tasks[i].file_name.as_str(),
                            self.tasks[i].file_name.as_str(),
                        );
                        text.append("\n<b>Error:</b> ");
                        text.append(err.as_str());
                        assert(text@ =~= failure_text(old(self)@.tasks[i as int], err@));
                        let reply_to: i32 = self.tasks[i].msg_id;
                        set_state_at(&mut self.tasks, i, DownloadState::Error(err));
                        Some(Effect::Send(Reply { reply_to, text, keyboard: None }))
                    },
                    None => None,
                }
            },
            DownloadEvent::TaskRemove(tid) => {
                match position(&self.tasks, &tid) {
                    Some(i) => {
                        let leaves: bool = match &self.tasks[i].state {
                            DownloadState::Done => true,
                            DownloadState::AwaitingConfirmation => true,
                            _ => false,
                        };
                        if leaves {
                            let _ = self.tasks.remove(i);
                            assert(self.tasks.deep_view() =~= old(self).tasks.deep_view().remove(
                                i as int,
                            ));
                        }
                    },
                    None => {},
                }
                None
            },
            DownloadEvent::UserMessageSent(mid) => {
                if mid > self.last_user_msg_id {
                    self.last_user_msg_id = mid;
                }
                None
            },
            DownloadEvent::ClearErrors => {
                clear_errors(&mut self.tasks);
                None
            },
            DownloadEvent::ConfirmLargeDownload(tid, dest_dir, local_mode) => {
                match position(&self.tasks, &tid) {
                    Some(i) => {
                        let file_id: Option<String> = self.tasks[i].file_id.clone();
                        match file_id {
                            Some(file_id) => {
                                let file_name: String = self.tasks[i].file_name.clone();
                                set_state_at(&mut self.tasks, i, DownloadState::Queued);
                                Some(
                                    Effect::StartDownload(
                                        DownloadJob {
                                            task_id: tid,
                                            file_id,
                                            file_name,
                                            dest_dir,
                                            local_mode,
                                        },
                                    ),
                                )
                            },
                            None => None,
                        }
                    },
                    None => None,
                }
            },
        }
    }

    /// Called at every tick of the clock: a rendering plan, if anything happened since the last.
    pub fn tick(&mut self) -> (r: Option<UiUpdate>)
        ensures
            old(self)@.dirty ==> r.deep_view() == Some(old(self)@.ui_update()) && final(self)@
                == old(self)@.rendered(),
            !old(self)@.dirty ==> r is None && final(self)@ == old(self)@,
    {
        if self.dirty {
            self.dirty = false;
            Some(self.update_ui())
        } else {
            None
        }
    }

    /// Plans how to bring the status message up to date, and forgets a stale one.
    pub fn update_ui(&mut self) -> (r: UiUpdate)
        ensures
            r@ == old(self)@.ui_update(),
            final(self)@ == (ActorView { dirty: old(self)@.dirty, ..old(self)@.rendered() }),
    {
        let mut delete: Option<i32> = None;
        match self.status_msg_id {
            Some(sid) => {
                if self.last_user_msg_id > sid {
                    delete = Some(sid);
                    self.status_msg_id = None;
                }
            },
            None => {},
        }
        let (text, keyboard) = generate_status_text(&self.tasks, &self.stats);
        UiUpdate { delete, edit: self.status_msg_id, text, keyboard }
    }

    /// Takes in whether the status message could be edited. One that could not is forgotten, so
    /// that the next update sends a new one.
    pub fn edit_finished(&mut self, ok: bool)
        ensures
            final(self)@ == old(self)@.edited(ok),
    {
        if !ok {
            self.status_msg_id = None;
        }
    }

    /// Takes in the id of a newly sent status message, or that it could not be sent.
    pub fn send_finished(&mut self, id: Option<i32>)
        ensures
            final(self)@ == old(self)@.sent(id),
    {
        match id {
            Some(m) => {
                self.status_msg_id = Some(m);
            },
            None => {},
        }
    }
}

/// The views of an actor, an effect and a rendering plan tell each of their parts.
pub proof fn law_actor_views_are_complete(a: Actor, effect: Effect, update: UiUpdate)
    ensures
        a@.tasks.len() == a.tasks@.len(),
        forall|i: int| 0 <= i < a.tasks@.len() ==> #[trigger] a@.tasks[i] == a.tasks@[i]@,
        a@.status_msg_id == a.status_msg_id,
        a@.last_user_msg_id == a.last_user_msg_id,
        a@.stats == a.stats,
        a@.dirty == a.dirty,
        effect.deep_view() == effect@,
        match effect {
            Effect::SaveStatistics(s) => effect@ == EffectView::SaveStatistics(s),
            Effect::Send(r) => effect@ == EffectView::Send(r@),
            Effect::StartDownload(j) => effect@ == EffectView::StartDownload(j@),
        },
        update.deep_view() == update@,
        update@.delete == update.delete,
        update@.edit == update.edit,
        update@.text == update.text@,
        update.keyboard is None ==> update@.keyboard is None,
        update.keyboard matches Some(row) ==> update@.keyboard matches Some(view) && view.len()
            == row@.len() && forall|i: int|
            0 <= i < row@.len() ==> #[trigger] view[i] == row@[i]@,
{
}

} // verus!
