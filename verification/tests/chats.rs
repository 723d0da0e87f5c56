use downloader_bot::chats::{ChatQueue, Chats};

#[test]
fn no_chat_has_a_queue_at_first() {
    assert_eq!(Chats::new().find(1), None);
}

#[test]
fn a_chat_gets_one_queue_and_keeps_it() {
    let mut chats = Chats::new();
    assert_eq!(chats.open(-100), ChatQueue { number: 0, is_new: true });
    assert_eq!(chats.open(7), ChatQueue { number: 1, is_new: true });
    assert_eq!(chats.open(-100), ChatQueue { number: 0, is_new: false });
    assert_eq!(chats.open(i64::MIN), ChatQueue { number: 2, is_new: true });
    assert_eq!(chats.open(7), ChatQueue { number: 1, is_new: false });
    assert_eq!(chats.find(-100), Some(0));
    assert_eq!(chats.find(7), Some(1));
    assert_eq!(chats.find(i64::MIN), Some(2));
    assert_eq!(chats.find(8), None);
}

#[test]
fn looking_for_a_queue_sets_none_up() {
    let mut chats = Chats::new();
    assert_eq!(chats.find(3), None);
    assert_eq!(chats.open(3), ChatQueue { number: 0, is_new: true });
}
