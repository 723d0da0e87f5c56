use downloader_bot::callback::{
    callback_handler, edit_after_answer, parse_command, Command, MessageEdit, PressedMessage,
};
use downloader_bot::intake::{
    file_handler, identify_content, judge, make_task_id, plan_download, Content, IncomingMessage,
    Media, NamedMedia, Verdict, MAX_FILE_SIZE, MAX_FILE_SIZE_LOCAL, MAX_FILE_SIZE_LOCAL_CONFIRM,
};
use downloader_bot::link::{build_message_link, is_linkable, link_or_fallback};
use downloader_bot::startup::{
    choose_endpoint, choose_webhook, endpoint_of, webhook_of, Config, Endpoint, Webhook,
};
use downloader_bot::tasks::{DownloadEvent, DownloadState, FileTask};

fn s(text: &str) -> String {
    text.to_string()
}

fn config(local_mode: bool) -> Config {
    Config {
        destination: s("downloads"),
        local_mode,
        telegram_api_server: s("http://localhost:8081"),
        telegram_webhook_url: None,
    }
}

fn message() -> IncomingMessage {
    IncomingMessage {
        chat_id: 777,
        chat_username: None,
        msg_id: 12,
        photo: None,
        document: None,
        video: None,
        animation: None,
        video_note: None,
    }
}

fn content(size: u32) -> Content {
    Content { file_id: s("F1"), name: s("doc"), size }
}

fn with_document(size: u32) -> IncomingMessage {
    let mut m = message();
    m.document = Some(NamedMedia { file_id: s("F1"), file_name: None, size });
    m
}

fn only_task(events: Vec<DownloadEvent>) -> FileTask {
    let mut events = events.into_iter();
    assert_eq!(events.next(), Some(DownloadEvent::UserMessageSent(12)));
    let task = match events.next() {
        Some(DownloadEvent::TaskAdded(task)) => task,
        other => panic!("{:?}", other),
    };
    assert_eq!(events.next(), None);
    task
}

// Links

#[test]
fn links_to_channels() {
    assert_eq!(build_message_link(-1001234567890, None, 5), "https://t.me/c/1234567890/5");
    assert_eq!(build_message_link(-1001234567890, Some("some_chat"), 5), "https://t.me/some_chat/5");
    assert_eq!(build_message_link(-1000000000000, None, 1), "https://t.me/c/0/1");
    assert_eq!(build_message_link(-1997852516352, None, 1), "https://t.me/c/997852516352/1");
}

#[test]
fn links_escape_odd_user_names() {
    assert_eq!(build_message_link(-1001234567890, Some("a b"), 5), "https://t.me/a%20b/5");
}

#[test]
fn links_to_private_chats_and_groups() {
    assert_eq!(build_message_link(777, None, 5), "tg://openmessage?user_id=777&message_id=5");
    assert_eq!(build_message_link(777, Some("me"), 5), "tg://openmessage?user_id=777&message_id=5");
    assert_eq!(build_message_link(-42, None, 5), "tg://openmessage?user_id=-42&message_id=5");
    assert_eq!(
        build_message_link(-999999999999, None, 5),
        "tg://openmessage?user_id=-999999999999&message_id=5"
    );
    assert_eq!(link_or_fallback(None, 1, 2), "tg://openmessage?user_id=1&message_id=2");
    assert_eq!(link_or_fallback(Some(s("https://t.me/x/2")), 1, 2), "https://t.me/x/2");
}

#[test]
fn malformed_chats_have_no_links() {
    assert!(is_linkable(0, None));
    assert!(is_linkable((1 << 40) - 1, Some("me")));
    assert!(!is_linkable(1 << 40, None));
    assert!(is_linkable(-1997852516352, None));
    assert!(!is_linkable(-1997852516353, None));
}

// Startup

#[test]
fn standard_mode_uses_the_standard_server() {
    let mut c = config(false);
    c.telegram_webhook_url = Some(s("not an address"));
    assert_eq!(choose_endpoint(&c), Endpoint::Standard);
    assert_eq!(choose_webhook(&c), Webhook::Skip);
}

#[test]
fn local_mode_uses_the_local_server() {
    let mut c = config(true);
    assert_eq!(choose_endpoint(&c), Endpoint::Local(s("http://localhost:8081/bot")));
    c.telegram_api_server = s("HTTP://LocalHost:80");
    assert_eq!(choose_endpoint(&c), Endpoint::Local(s("http://localhost/bot")));
    c.telegram_api_server = s("localhost");
    assert_eq!(choose_endpoint(&c), Endpoint::Invalid(s("relative URL without a base")));
    assert_eq!(choose_webhook(&c), Webhook::Skip);
}

#[test]
fn local_mode_registers_a_webhook() {
    let mut c = config(true);
    c.telegram_webhook_url = Some(s("http://localhost:8433/bot"));
    assert_eq!(choose_webhook(&c), Webhook::Register(s("http://localhost:8433/bot")));
    c.telegram_webhook_url = Some(s("http://"));
    assert_eq!(choose_webhook(&c), Webhook::Abort(s("empty host")));
}

#[test]
fn parsed_addresses_decide() {
    assert_eq!(endpoint_of(Ok(s("a"))), Endpoint::Local(s("a")));
    assert_eq!(endpoint_of(Err(s("b"))), Endpoint::Invalid(s("b")));
    assert_eq!(webhook_of(Ok(s("a"))), Webhook::Register(s("a")));
    assert_eq!(webhook_of(Err(s("b"))), Webhook::Abort(s("b")));
}

// Files that come in

#[test]
fn content_of_each_kind() {
    assert_eq!(identify_content(&message()), None);
    let mut m = message();
    m.video_note = Some(Media { file_id: s("n"), size: 5 });
    assert_eq!(
        identify_content(&m),
        Some(Content { file_id: s("n"), name: s("video_note"), size: 5 })
    );
    m.animation = Some(NamedMedia { file_id: s("g"), file_name: None, size: 4 });
    assert_eq!(identify_content(&m), Some(Content { file_id: s("g"), name: s("gif"), size: 4 }));
    m.video = Some(NamedMedia { file_id: s("v"), file_name: None, size: 3 });
    assert_eq!(identify_content(&m), Some(Content { file_id: s("v"), name: s("video"), size: 3 }));
    m.document = Some(NamedMedia { file_id: s("d"), file_name: None, size: 2 });
    assert_eq!(identify_content(&m), Some(Content { file_id: s("d"), name: s("doc"), size: 2 }));
    m.photo = Some(vec![
        Media { file_id: s("small"), size: 1 },
        Media { file_id: s("large"), size: 9 },
    ]);
    assert_eq!(
        identify_content(&m),
        Some(Content { file_id: s("large"), name: s("photo"), size: 9 })
    );
    m.photo = Some(vec![]);
    assert_eq!(identify_content(&m), None);
}

#[test]
fn content_keeps_its_own_name() {
    let mut m = message();
    m.document =
        Some(NamedMedia { file_id: s("d"), file_name: Some(s("report.pdf")), size: 2 });
    assert_eq!(
        identify_content(&m),
        Some(Content { file_id: s("d"), name: s("report.pdf"), size: 2 })
    );
}

#[test]
fn task_ids() {
    assert_eq!(make_task_id(12, "F1"), "12_F1");
    assert_ne!(make_task_id(1, "2_F"), make_task_id(12, "F"));
}

#[test]
fn limits_on_sizes() {
    assert_eq!(MAX_FILE_SIZE, 20971520);
    assert_eq!(MAX_FILE_SIZE_LOCAL, 157286400);
    assert_eq!(MAX_FILE_SIZE_LOCAL_CONFIRM, 2097152000);
    assert_eq!(judge(MAX_FILE_SIZE, false), Verdict::Accept);
    assert_eq!(judge(MAX_FILE_SIZE + 1, false), Verdict::Reject);
    assert_eq!(judge(MAX_FILE_SIZE + 1, true), Verdict::Accept);
    assert_eq!(judge(MAX_FILE_SIZE_LOCAL, true), Verdict::Accept);
    assert_eq!(judge(MAX_FILE_SIZE_LOCAL + 1, true), Verdict::Ask);
    assert_eq!(judge(MAX_FILE_SIZE_LOCAL_CONFIRM, true), Verdict::Ask);
    assert_eq!(judge(MAX_FILE_SIZE_LOCAL_CONFIRM + 1, true), Verdict::Reject);
}

#[test]
fn existing_file_is_skipped() {
    let plan = file_handler(&with_document(1), &config(false), true).unwrap();
    assert!(plan.events.is_empty());
    assert!(plan.start.is_none());
    let reply = plan.reply.unwrap();
    assert_eq!(reply.reply_to, 12);
    assert_eq!(reply.text, "ℹ️ <b>File already exists</b> - skipping download.");
    assert_eq!(reply.keyboard, None);
}

#[test]
fn message_without_a_file_is_ignored() {
    assert_eq!(file_handler(&message(), &config(true), false), None);
    assert_eq!(file_handler(&message(), &config(true), true), None);
}

#[test]
fn small_file_is_downloaded() {
    let plan = file_handler(&with_document(1024), &config(false), false).unwrap();
    assert!(plan.reply.is_none());
    let job = plan.start.unwrap();
    assert_eq!(job.task_id, "12_F1");
    assert_eq!(job.file_id, "F1");
    assert_eq!(job.file_name, "doc");
    assert_eq!(job.dest_dir, "downloads");
    assert!(!job.local_mode);
    let task = only_task(plan.events);
    assert_eq!(task.id, "12_F1");
    assert_eq!(task.msg_id, 12);
    assert_eq!(task.name_display, "Media #12");
    assert_eq!(task.state, DownloadState::Queued);
    assert_eq!(task.link, "tg://openmessage?user_id=777&message_id=12");
    assert_eq!(task.size_bytes, 1024);
    assert_eq!(task.file_name, "doc");
    assert_eq!(task.file_id, Some(s("F1")));
}

#[test]
fn file_in_a_channel_links_to_its_message() {
    let mut m = with_document(1);
    m.chat_id = -1001234567890;
    m.chat_username = Some(s("some_chat"));
    let plan = file_handler(&m, &config(true), false).unwrap();
    assert_eq!(only_task(plan.events).link, "https://t.me/some_chat/12");
}

#[test]
fn large_file_is_rejected_in_standard_mode() {
    let plan = plan_download(12, content(20971521), s("L"), &config(false));
    assert!(plan.start.is_none());
    let reply = plan.reply.unwrap();
    assert_eq!(
        reply.text,
        "❌ <b>Error:</b> <a href=\"L\">File</a> is too large (20.0MB)."
    );
    assert_eq!(reply.keyboard, None);
    let task = only_task(plan.events);
    assert_eq!(task.state, DownloadState::Error(s("Too large (>20MB)")));
    assert_eq!(task.file_id, None);
    let unlinked = plan_download(12, content(20971521), s(""), &config(false));
    assert_eq!(
        unlinked.reply.unwrap().text,
        "❌ <b>Error:</b> Media #12 is too large (20.0MB)."
    );
}

#[test]
fn huge_file_is_rejected_in_local_mode() {
    let plan = plan_download(12, content(2097152001), s("L"), &config(true));
    assert!(plan.start.is_none());
    assert_eq!(
        plan.reply.unwrap().text,
        "❌ <b>Error:</b> <a href=\"L\">File</a> is too large (2000.0MB).\n\
        Maximum file size in local mode is 2000.0MB."
    );
    let task = only_task(plan.events);
    assert_eq!(task.state, DownloadState::Error(s("Too large (>2000.0MB)")));
    assert_eq!(task.file_id, None);
}

#[test]
fn large_file_is_asked_about_in_local_mode() {
    let plan = plan_download(12, content(157286401), s("L"), &config(true));
    assert!(plan.start.is_none());
    let reply = plan.reply.unwrap();
    assert_eq!(
        reply.text,
        "⚠️ <a href=\"L\">File</a> is large (150.0MB).\nDownload may take time. Continue?"
    );
    let row = reply.keyboard.unwrap();
    assert_eq!(row.len(), 2);
    assert_eq!(row[0].text, "✅ Download (150.0MB)");
    assert_eq!(row[0].data, "confirm_download:12_F1");
    assert_eq!(row[1].text, "❌ Cancel");
    assert_eq!(row[1].data, "cancel_download:12_F1");
    assert_eq!(parse_command(&row[0].data), Command::Confirm(s("12_F1")));
    assert_eq!(parse_command(&row[1].data), Command::Cancel(s("12_F1")));
    let task = only_task(plan.events);
    assert_eq!(task.state, DownloadState::AwaitingConfirmation);
    assert_eq!(task.file_id, Some(s("F1")));
    let unlinked = plan_download(12, content(157286401), s(""), &config(true));
    assert_eq!(
        unlinked.reply.unwrap().text,
        "⚠️ Media #12 is large (150.0MB).\nDownload may take time. Continue?"
    );
}

// Buttons

#[test]
fn commands() {
    assert_eq!(parse_command("clear_errors"), Command::ClearErrors);
    assert_eq!(parse_command("clear_errors "), Command::Unknown);
    assert_eq!(parse_command("confirm_download:"), Command::Confirm(s("")));
    assert_eq!(parse_command("cancel_download:a:b"), Command::Cancel(s("a:b")));
    assert_eq!(parse_command(""), Command::Unknown);
}

#[test]
fn presses_become_plans() {
    let at = Some(PressedMessage { chat_id: 777, msg_id: 31 });
    let c = config(true);
    let plan = callback_handler(Some("clear_errors"), at, true, &c).unwrap();
    assert_eq!(plan.chat_id, 777);
    assert_eq!(plan.event, Some(DownloadEvent::ClearErrors));
    assert_eq!(plan.answer, "Errors cleared");
    assert_eq!(plan.edit, None);
    let plan = callback_handler(Some("confirm_download:12_F1"), at, true, &c).unwrap();
    assert_eq!(
        plan.event,
        Some(DownloadEvent::ConfirmLargeDownload(s("12_F1"), s("downloads"), true))
    );
    assert_eq!(plan.answer, "Download started...");
    let edit = MessageEdit { msg_id: 31, text: s("✅ Download confirmed and started.") };
    assert_eq!(edit_after_answer(plan, true), Some(edit));
    let plan = callback_handler(Some("cancel_download:12_F1"), at, true, &c).unwrap();
    assert_eq!(plan.event, Some(DownloadEvent::TaskRemove(s("12_F1"))));
    assert_eq!(plan.answer, "Download cancelled");
    assert_eq!(plan.edit, Some(MessageEdit { msg_id: 31, text: s("❌ Download cancelled.") }));
    assert_eq!(edit_after_answer(plan, false), None);
}

#[test]
fn presses_without_a_queue_are_answered() {
    let at = Some(PressedMessage { chat_id: 777, msg_id: 31 });
    let plan = callback_handler(Some("clear_errors"), at, false, &config(true)).unwrap();
    assert_eq!(plan.event, None);
    assert_eq!(plan.answer, "Errors cleared");
}

#[test]
fn odd_presses_are_ignored() {
    let at = Some(PressedMessage { chat_id: 777, msg_id: 31 });
    let c = config(true);
    assert_eq!(callback_handler(None, at, true, &c), None);
    assert_eq!(callback_handler(Some("clear_errors"), None, true, &c), None);
    assert_eq!(callback_handler(Some("other"), at, true, &c), None);
}
