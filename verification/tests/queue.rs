use downloader_bot::actor::{Actor, Effect};
use downloader_bot::stats::Statistics;
use downloader_bot::status::generate_status_text;
use downloader_bot::tasks::{DownloadEvent, DownloadState, FileTask};

fn s(text: &str) -> String {
    text.to_string()
}

fn task(id: &str, state: DownloadState) -> FileTask {
    FileTask {
        id: s(id),
        msg_id: 12,
        name_display: s("Media #12"),
        state,
        link: s("L"),
        size_bytes: 2048,
        file_name: s("doc"),
        file_id: Some(s("F1")),
    }
}

fn actor() -> Actor {
    Actor::new(Statistics::new())
}

fn add(a: &mut Actor, t: FileTask) {
    assert_eq!(a.handle(DownloadEvent::TaskAdded(t)), None);
}

fn ids(a: &Actor) -> Vec<&str> {
    a.tasks.iter().map(|t| t.id.as_str()).collect()
}

const RULE: &str = "━━━━━━━━━━━━━━━━━━";

#[test]
fn new_actor_is_idle() {
    let mut a = actor();
    assert!(a.tasks.is_empty());
    assert_eq!(a.last_user_msg_id, 0);
    assert_eq!(a.tick(), None);
}

#[test]
fn successful_download_leaves_the_queue() {
    let mut a = actor();
    add(&mut a, task("other", DownloadState::Queued));
    add(&mut a, task("t", DownloadState::Queued));
    a.handle(DownloadEvent::TaskStarted(s("t")));
    assert_eq!(a.tasks[1].state, DownloadState::Downloading);
    assert_eq!(a.tasks[0].state, DownloadState::Queued);
    assert!(a.can_handle(&DownloadEvent::TaskDone(s("t"))));
    let counted = Statistics { total_downloaded_count: 1, total_downloaded_bytes: 2048 };
    assert_eq!(
        a.handle(DownloadEvent::TaskDone(s("t"))),
        Some(Effect::SaveStatistics(counted))
    );
    assert_eq!(a.tasks[1].state, DownloadState::Done);
    a.handle(DownloadEvent::TaskRemove(s("t")));
    assert_eq!(ids(&a), ["other"]);
    assert_eq!(a.stats, counted);
}

#[test]
fn failed_download_is_told_and_stays() {
    let mut a = actor();
    add(&mut a, task("t", DownloadState::Queued));
    match a.handle(DownloadEvent::TaskError(s("t"), s("timeout"))) {
        Some(Effect::Send(reply)) => {
            assert_eq!(reply.reply_to, 12);
            assert_eq!(
                reply.text,
                "❌ <b>Download Failed:</b> <a href=\"L\">doc</a>\n<b>Error:</b> timeout"
            );
            assert_eq!(reply.keyboard, None);
        }
        other => panic!("{:?}", other),
    }
    assert_eq!(a.tasks[0].state, DownloadState::Error(s("timeout")));
    assert_eq!(a.stats, Statistics::new());
    a.handle(DownloadEvent::TaskRemove(s("t")));
    assert_eq!(ids(&a), ["t"]);
    a.handle(DownloadEvent::ClearErrors);
    assert!(a.tasks.is_empty());
}

#[test]
fn failure_without_a_link_names_the_file() {
    let mut a = actor();
    let mut t = task("t", DownloadState::Queued);
    t.link = String::new();
    add(&mut a, t);
    match a.handle(DownloadEvent::TaskError(s("t"), s("timeout"))) {
        Some(Effect::Send(reply)) => {
            assert_eq!(reply.text, "❌ <b>Download Failed:</b> doc\n<b>Error:</b> timeout");
        }
        other => panic!("{:?}", other),
    }
}

#[test]
fn confirmed_file_is_queued_and_started() {
    let mut a = actor();
    add(&mut a, task("t", DownloadState::AwaitingConfirmation));
    match a.handle(DownloadEvent::ConfirmLargeDownload(s("t"), s("dir"), true)) {
        Some(Effect::StartDownload(job)) => {
            assert_eq!(job.task_id, "t");
            assert_eq!(job.file_id, "F1");
            assert_eq!(job.file_name, "doc");
            assert_eq!(job.dest_dir, "dir");
            assert!(job.local_mode);
        }
        other => panic!("{:?}", other),
    }
    assert_eq!(a.tasks[0].state, DownloadState::Queued);
}

#[test]
fn cancelled_file_is_gone() {
    let mut a = actor();
    add(&mut a, task("t", DownloadState::AwaitingConfirmation));
    assert_eq!(a.handle(DownloadEvent::TaskRemove(s("t"))), None);
    assert!(a.tasks.is_empty());
    assert_eq!(a.handle(DownloadEvent::ConfirmLargeDownload(s("t"), s("dir"), true)), None);
}

#[test]
fn rejected_file_cannot_be_confirmed() {
    let mut a = actor();
    let mut t = task("t", DownloadState::Error(s("Too large")));
    t.file_id = None;
    add(&mut a, t);
    assert_eq!(a.handle(DownloadEvent::ConfirmLargeDownload(s("t"), s("dir"), true)), None);
    assert_eq!(a.tasks[0].state, DownloadState::Error(s("Too large")));
}

#[test]
fn running_tasks_are_not_removed() {
    let mut a = actor();
    add(&mut a, task("q", DownloadState::Queued));
    add(&mut a, task("d", DownloadState::Downloading));
    a.handle(DownloadEvent::TaskRemove(s("q")));
    a.handle(DownloadEvent::TaskRemove(s("d")));
    assert_eq!(ids(&a), ["q", "d"]);
}

#[test]
fn clearing_errors_keeps_the_rest_in_order() {
    let mut a = actor();
    add(&mut a, task("1", DownloadState::Error(s("x"))));
    add(&mut a, task("2", DownloadState::Done));
    add(&mut a, task("3", DownloadState::Error(s("y"))));
    add(&mut a, task("4", DownloadState::Queued));
    a.handle(DownloadEvent::ClearErrors);
    assert_eq!(ids(&a), ["2", "4"]);
}

#[test]
fn the_first_task_of_an_id_is_meant() {
    let mut a = actor();
    add(&mut a, task("t", DownloadState::Queued));
    add(&mut a, task("t", DownloadState::Queued));
    a.handle(DownloadEvent::TaskDone(s("t")));
    assert_eq!(a.tasks[0].state, DownloadState::Done);
    assert_eq!(a.tasks[1].state, DownloadState::Queued);
}

#[test]
fn events_for_unknown_tasks_do_nothing() {
    let mut a = actor();
    for event in [
        DownloadEvent::TaskStarted(s("x")),
        DownloadEvent::TaskDone(s("x")),
        DownloadEvent::TaskError(s("x"), s("e")),
        DownloadEvent::TaskRemove(s("x")),
    ] {
        assert!(a.can_handle(&event));
        assert_eq!(a.handle(event), None);
    }
    assert!(a.tasks.is_empty());
    assert_eq!(a.stats, Statistics::new());
    assert!(a.dirty);
}

#[test]
fn full_statistics_refuse_the_event() {
    let full = Statistics { total_downloaded_count: u64::MAX, total_downloaded_bytes: 0 };
    let mut a = Actor::new(full);
    add(&mut a, task("t", DownloadState::Downloading));
    assert!(!a.can_handle(&DownloadEvent::TaskDone(s("t"))));
    assert!(a.can_handle(&DownloadEvent::TaskDone(s("u"))));
    assert!(a.can_handle(&DownloadEvent::ClearErrors));
}

#[test]
fn status_is_sent_then_edited_then_moved() {
    let mut a = actor();
    a.handle(DownloadEvent::UserMessageSent(10));
    let first = a.tick().unwrap();
    assert_eq!((first.delete, first.edit), (None, None));
    a.send_finished(Some(11));
    assert_eq!(a.tick(), None);
    a.handle(DownloadEvent::ClearErrors);
    let second = a.tick().unwrap();
    assert_eq!((second.delete, second.edit), (None, Some(11)));
    a.edit_finished(true);
    a.handle(DownloadEvent::UserMessageSent(12));
    let third = a.tick().unwrap();
    assert_eq!((third.delete, third.edit), (Some(11), None));
    assert_eq!(a.status_msg_id, None);
    a.send_finished(None);
    assert_eq!(a.status_msg_id, None);
}

#[test]
fn failed_edit_sends_anew() {
    let mut a = actor();
    a.status_msg_id = Some(5);
    a.handle(DownloadEvent::ClearErrors);
    assert_eq!(a.tick().unwrap().edit, Some(5));
    a.edit_finished(false);
    a.handle(DownloadEvent::ClearErrors);
    let update = a.tick().unwrap();
    assert_eq!((update.delete, update.edit), (None, None));
}

#[test]
fn older_user_messages_do_not_count() {
    let mut a = actor();
    a.handle(DownloadEvent::UserMessageSent(10));
    a.handle(DownloadEvent::UserMessageSent(9));
    assert_eq!(a.last_user_msg_id, 10);
    a.status_msg_id = Some(10);
    let update = a.update_ui();
    assert_eq!((update.delete, update.edit), (None, Some(10)));
}

#[test]
fn empty_queue_text() {
    let a = actor();
    let (text, keyboard) = generate_status_text(&a.tasks, &a.stats);
    assert_eq!(text, "<b>📂 Download Queue</b>\n\n<i>Queue is empty. Waiting for files...</i>");
    assert_eq!(keyboard, None);
    let stats = Statistics { total_downloaded_count: 3, total_downloaded_bytes: 1610612736 };
    let (text, _) = generate_status_text(&a.tasks, &stats);
    assert_eq!(
        text,
        format!(
            "<b>📂 Download Queue</b>\n\n<i>Queue is empty. Waiting for files...</i>\n\n{}\n\
            📊 <b>Total:</b> 3 files | 1.50GB",
            RULE
        )
    );
}

#[test]
fn queue_text_of_each_state() {
    let mut a = actor();
    add(&mut a, task("1", DownloadState::Queued));
    add(&mut a, task("2", DownloadState::Downloading));
    add(&mut a, task("3", DownloadState::Done));
    add(&mut a, task("4", DownloadState::AwaitingConfirmation));
    let mut failed = task("5", DownloadState::Error(s("timeout")));
    failed.link = String::new();
    add(&mut a, failed);
    let (text, keyboard) = generate_status_text(&a.tasks, &a.stats);
    assert_eq!(
        text,
        format!(
            "<b>📂 Download Queue</b>\n\n\
            ⏳ <code>[2KB]</code> <a href=\"L\">Media #12</a> (Queued)\n\
            ⬇️ <code>[2KB]</code> <a href=\"L\">Media #12</a> ...\n\
            ✅ <code>[2KB]</code> <a href=\"L\">Media #12</a> \n\
            ⚠️ <code>[2KB]</code> <a href=\"L\">Media #12</a> (Awaiting confirmation)\n\
            ❌ <code>[2KB]</code> Media #12 \n   <i>timeout</i>\n\
            \n{}\n📊 Active: 3 | Done: 1\n📈 <b>Total:</b> 0 files | 0KB",
            RULE
        )
    );
    let row = keyboard.unwrap();
    assert_eq!(row.len(), 1);
    assert_eq!(row[0].text, "Clear Errors 🗑️");
    assert_eq!(row[0].data, "clear_errors");
}

#[test]
fn long_queue_is_cut() {
    let mut a = actor();
    for i in 0..8 {
        add(&mut a, task(&format!("{}", i), DownloadState::Queued));
    }
    let (text, _) = generate_status_text(&a.tasks, &a.stats);
    assert!(!text.contains("more</i>"));
    add(&mut a, task("8", DownloadState::Error(s("hidden"))));
    add(&mut a, task("9", DownloadState::Queued));
    let (text, keyboard) = generate_status_text(&a.tasks, &a.stats);
    assert!(text.contains("(Queued)\n\n<i>... and 2 more</i>\n━"));
    assert_eq!(text.matches("(Queued)").count(), 8);
    assert!(!text.contains("hidden"));
    assert!(text.contains("Active: 9 | Done: 0\n"));
    // An error that is not listed brings no button.
    assert_eq!(keyboard, None);
}

#[test]
fn every_task_is_active_done_or_failed() {
    let mut a = actor();
    for i in 0..12 {
        let state = match i % 4 {
            0 => DownloadState::Queued,
            1 => DownloadState::Downloading,
            2 => DownloadState::Done,
            _ => DownloadState::Error(s("x")),
        };
        add(&mut a, task(&format!("{}", i), state));
    }
    let (text, keyboard) = generate_status_text(&a.tasks, &a.stats);
    assert!(text.contains("Active: 6 | Done: 3\n"));
    assert!(keyboard.is_some());
    a.handle(DownloadEvent::ClearErrors);
    assert_eq!(a.tasks.len(), 9);
    let (text, keyboard) = generate_status_text(&a.tasks, &a.stats);
    assert!(text.contains("Active: 6 | Done: 3\n"));
    assert_eq!(keyboard, None);
}

#[test]
fn ids_stay_distinct() {
    let mut a = actor();
    for id in ["1", "2", "3"] {
        add(&mut a, task(id, DownloadState::AwaitingConfirmation));
    }
    a.handle(DownloadEvent::ConfirmLargeDownload(s("2"), s("dir"), true));
    a.handle(DownloadEvent::TaskError(s("2"), s("x")));
    a.handle(DownloadEvent::TaskRemove(s("1")));
    assert_eq!(ids(&a), ["2", "3"]);
    a.handle(DownloadEvent::ClearErrors);
    assert_eq!(ids(&a), ["3"]);
}

fn sized(id: &str, size_bytes: u32) -> FileTask {
    FileTask { size_bytes, ..task(id, DownloadState::Queued) }
}

#[test]
fn totals_add_up_over_a_series() {
    let mut a = Actor::new(Statistics { total_downloaded_count: 5, total_downloaded_bytes: 100 });
    add(&mut a, sized("a", 10));
    add(&mut a, sized("b", 20));
    add(&mut a, sized("c", 40));
    a.handle(DownloadEvent::TaskDone(s("a")));
    a.handle(DownloadEvent::TaskDone(s("unknown")));
    a.handle(DownloadEvent::TaskError(s("b"), s("timeout")));
    a.handle(DownloadEvent::TaskRemove(s("a")));
    a.handle(DownloadEvent::TaskDone(s("a")));
    a.handle(DownloadEvent::TaskDone(s("c")));
    assert_eq!(
        a.stats,
        Statistics { total_downloaded_count: 7, total_downloaded_bytes: 150 }
    );
}

#[test]
fn tasks_keep_their_order_over_a_series() {
    let mut a = actor();
    for id in ["a", "b", "c"] {
        add(&mut a, sized(id, 1));
    }
    a.handle(DownloadEvent::TaskError(s("a"), s("timeout")));
    a.handle(DownloadEvent::TaskDone(s("b")));
    add(&mut a, sized("d", 4));
    a.handle(DownloadEvent::TaskRemove(s("b")));
    assert_eq!(ids(&a), ["a", "c", "d"]);
    a.handle(DownloadEvent::ClearErrors);
    add(&mut a, sized("a", 9));
    assert_eq!(ids(&a), ["c", "d", "a"]);
    a.handle(DownloadEvent::TaskStarted(s("d")));
    assert_eq!(a.tasks[1], FileTask { state: DownloadState::Downloading, ..sized("d", 4) });
    assert_eq!(a.tasks[2], sized("a", 9));
}
