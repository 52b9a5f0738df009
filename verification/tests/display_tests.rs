use gram::conf::{default_labels, default_settings, Chat, ChatSenderMode, GramConf, GramLabel, User, UserSenderMode};
use gram::display::{
    chat_kind, chats_header, content_text, content_width, folder_row, label_or_empty, message_table,
    notification, push_chat, sender_text, status_text, ChatType, ContentPreview, GramMessage,
    MessageInfo, MessageSender, SenderDetails,
};
use std::collections::HashMap;

fn labels() -> HashMap<i64, GramLabel> {
    let mut l = HashMap::new();
    l.insert(5, GramLabel { name: "bob".to_string() });
    l.insert(9, GramLabel { name: "myself".to_string() });
    l
}

fn msg(id: i64, outgoing: bool, sending: bool) -> MessageInfo {
    MessageInfo {
        id,
        sender_id: MessageSender::User { user_id: 5 },
        content: ContentPreview::Text { text: "hello there".to_string() },
        is_outgoing: outgoing,
        has_sending_state: sending,
        content_debug: "MessageText".to_string(),
    }
}

#[test]
fn sender_cells() {
    let l = labels();
    assert_eq!(sender_text(&l, None, MessageSender::User { user_id: 5 }, -1), "bob");
    assert_eq!(sender_text(&l, Some(9), MessageSender::User { user_id: 9 }, -1), "me");
    assert_eq!(sender_text(&l, Some(9), MessageSender::Chat { chat_id: 77 }, -1), "chat:77");
    assert_eq!(sender_text(&l, None, MessageSender::User { user_id: 123456 }, 4), "user...");
    assert_eq!(sender_text(&l, Some(77), MessageSender::User { user_id: 77 }, -1), "user:77");
}

#[test]
fn content_cells() {
    assert_eq!(content_text(&ContentPreview::Text { text: "abcdef".to_string() }, 3), "abc...");
    assert_eq!(content_text(&ContentPreview::Photo { caption: "x".to_string() }, 3), "[photo]");
    assert_eq!(content_text(&ContentPreview::Document { file_name: "a.pdf".to_string() }, 1), "[doc: a.pdf]");
    assert_eq!(content_text(&ContentPreview::Sticker { emoji: "x".to_string() }, -1), "[sticker: x]");
    assert_eq!(content_text(&ContentPreview::Video { file_name: "v".to_string() }, -1), "[video]");
    assert_eq!(content_text(&ContentPreview::Audio, -1), "[audio]");
    assert_eq!(content_text(&ContentPreview::Call { is_video: true, duration: 12 }, -1), "[12sec video call]");
    assert_eq!(content_text(&ContentPreview::Call { is_video: false, duration: 0 }, -1), "[0sec call]");
    assert_eq!(content_text(&ContentPreview::Other, -1), "[other]");
}

#[test]
fn status_marks() {
    assert_eq!(status_text(&msg(10, false, false), 100), "");
    assert_eq!(status_text(&msg(10, true, true), 100), "\u{2717}");
    assert_eq!(status_text(&msg(10, true, false), 10), "\u{2713}\u{2713}");
    assert_eq!(status_text(&msg(10, true, false), 9), "\u{2713}");
}

#[test]
fn message_table_oldest_first() {
    let l = labels();
    let ms = vec![
        GramMessage { msg: msg(2, false, false), last_read_outbox_message_id: 0, date: "12:00:02".to_string() },
        GramMessage { msg: msg(1, true, false), last_read_outbox_message_id: 1, date: "12:00:01".to_string() },
    ];
    let t = message_table(&ms, &l, None, 5);
    assert_eq!(t.len(), 3);
    assert_eq!(t[0], vec!["ID", "Sender", "Date", "Content", "Status"]);
    assert_eq!(t[1], vec!["1", "bob", "12:00:01", "hello...", "\u{2713}\u{2713}"]);
    assert_eq!(t[2], vec!["2", "bob", "12:00:02", "hello...", ""]);
}

#[test]
fn chat_kinds() {
    assert_eq!(chat_kind(ChatType::Private { user_id: 1 }), ("private", 1));
    assert_eq!(chat_kind(ChatType::BasicGroup { basic_group_id: 2 }), ("bagroup", 2));
    assert_eq!(chat_kind(ChatType::Supergroup { supergroup_id: 3 }), ("sugroup", 3));
    assert_eq!(chat_kind(ChatType::Secret { user_id: 4 }), ("secretc", 4));
}

#[test]
fn chat_rows() {
    assert_eq!(chats_header(true), vec!["#", "Id", "Type", "Inner ID", "Title", "Label?"]);
    assert_eq!(chats_header(false), vec!["#", "Id", "Type", "Title", "Label?"]);
    let mut b = vec![chats_header(false)];
    push_chat(&mut b, 0, -100, "sugroup", 100, "A long title".to_string(), "lbl".to_string(), 4, false);
    push_chat(&mut b, 1, 5, "private", 5, "Bob".to_string(), "".to_string(), -1, true);
    assert_eq!(b.len(), 3);
    assert_eq!(b[1], vec!["0", "-100", "sugroup", "A lo...", "lbl"]);
    assert_eq!(b[2], vec!["1", "5", "private", "5", "Bob", ""]);
}

#[test]
fn labels_or_empty() {
    let l = labels();
    assert_eq!(label_or_empty(&l, 5), "bob");
    assert_eq!(label_or_empty(&l, 6), "");
}

#[test]
fn folder_rows() {
    assert_eq!(folder_row(3, "Work stuff", 4), vec!["3", "Work..."]);
}

#[test]
fn content_widths() {
    assert_eq!(content_width(None), 72);
    assert_eq!(content_width(Some(200)), 72);
    assert_eq!(content_width(Some(100)), 52);
    assert_eq!(content_width(Some(60)), 20);
    assert_eq!(content_width(Some(0)), 20);
}

fn conf() -> GramConf {
    GramConf { labels: default_labels(), settings: default_settings(), encryption: None }
}

#[test]
fn notifications() {
    let c = conf();
    let user = User { id: 1, first_name: "Ada".to_string(), last_name: "L".to_string() };
    let m = msg(3, false, false);
    assert_eq!(
        notification(&c, &m, SenderDetails::User(user)),
        Some(("Ada L".to_string(), "hello there".to_string()))
    );
    let out = msg(3, true, false);
    let user = User { id: 1, first_name: "Ada".to_string(), last_name: "L".to_string() };
    assert_eq!(notification(&c, &out, SenderDetails::User(user)), None);
}

#[test]
fn notification_bodies_and_modes() {
    let mut c = conf();
    c.settings.max_len_before_shortening = 6;
    c.settings.chat_sender_mode = ChatSenderMode::ChatId;
    c.settings.user_sender_mode = UserSenderMode::UserId;
    let mut m = msg(3, false, false);
    m.content = ContentPreview::Photo { caption: "cat".to_string() };
    let chat = Chat { id: -12345678, title: "t".to_string() };
    assert_eq!(
        notification(&c, &m, SenderDetails::Chat(chat)),
        Some(("-12345...".to_string(), "<video...".to_string()))
    );
    m.content = ContentPreview::Sticker { emoji: "x".to_string() };
    m.content_debug = "S".to_string();
    c.settings.max_len_before_shortening = -1;
    let user = User { id: 8, first_name: "A".to_string(), last_name: "B".to_string() };
    assert_eq!(
        notification(&c, &m, SenderDetails::User(user)),
        Some(("8".to_string(), "unsupported message type S".to_string()))
    );
}
