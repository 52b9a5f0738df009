use gram::chat::{ChatList, GramChat};
use gram::commands::{plan, Action, Command, MessageFormat};

fn words(s: &str) -> Vec<String> {
    s.split(' ').map(|w| w.to_string()).collect()
}

#[test]
fn simple_commands() {
    assert!(matches!(plan(Command::Login), Action::Login));
    assert!(matches!(plan(Command::Logout), Action::Logout));
    assert!(matches!(plan(Command::Exit), Action::Exit));
    assert!(matches!(plan(Command::Folders), Action::Folders));
    match plan(Command::Version) {
        Action::Print { text } => assert_eq!(text, "gram v0.0.1"),
        _ => panic!("version prints"),
    }
}

#[test]
fn limits_must_be_positive() {
    match plan(Command::Chats { limit: 0, chat_list: ChatList::Main }) {
        Action::Fail { message } => assert_eq!(message, "chat limit must be positive."),
        _ => panic!("expected failure"),
    }
    assert!(matches!(
        plan(Command::Chats { limit: 10, chat_list: ChatList::Archive }),
        Action::Chats { limit: 10, chat_list: ChatList::Archive }
    ));
    match plan(Command::Read { target_chat: GramChat::ChatId(1), limit: -3 }) {
        Action::Fail { message } => assert_eq!(message, "message limit must be positive."),
        _ => panic!("expected failure"),
    }
    assert!(matches!(
        plan(Command::Read { target_chat: GramChat::ChatId(1), limit: 10 }),
        Action::Read { target_chat: GramChat::ChatId(1), limit: 10 }
    ));
}

#[test]
fn sending_joins_words() {
    match plan(Command::Send { target_chat: GramChat::Label("bob".to_string()), message: words("hello big world") }) {
        Action::Send { target_chat, reply_to, text } => {
            assert_eq!(target_chat, GramChat::Label("bob".to_string()));
            assert_eq!(reply_to, None);
            assert_eq!(text, "hello big world");
        }
        _ => panic!("expected send"),
    }
    match plan(Command::Reply { target_chat: GramChat::ChatId(3), target_message: Some(77), message: words("ok") }) {
        Action::Send { reply_to, text, .. } => {
            assert_eq!(reply_to, Some(77));
            assert_eq!(text, "ok");
        }
        _ => panic!("expected send"),
    }
    match plan(Command::Text { target_chat: GramChat::ChatId(3), message: words("a b") }) {
        Action::SendText { text, .. } => assert_eq!(text, "a b"),
        _ => panic!("expected text"),
    }
    match plan(Command::Doc { target_chat: GramChat::ChatId(3), message: words("my file.txt") }) {
        Action::SendDoc { path, .. } => assert_eq!(path, "my file.txt"),
        _ => panic!("expected doc"),
    }
}

#[test]
fn labels_and_settings() {
    assert!(matches!(plan(Command::Label { chat_id: 4, label: None }), Action::GetLabel { chat_id: 4 }));
    match plan(Command::Label { chat_id: 4, label: Some("x".to_string()) }) {
        Action::SetLabel { chat_id, name } => {
            assert_eq!(chat_id, 4);
            assert_eq!(name, "x");
        }
        _ => panic!("expected set label"),
    }
    assert!(matches!(plan(Command::Settings { key: None, value: None }), Action::ListSettings));
    match plan(Command::Settings { key: Some("color".to_string()), value: None }) {
        Action::GetSetting { key } => assert_eq!(key, "color"),
        _ => panic!("expected get"),
    }
    match plan(Command::Settings { key: Some("color".to_string()), value: Some("false".to_string()) }) {
        Action::SetSetting { key, value } => {
            assert_eq!(key, "color");
            assert_eq!(value, "false");
        }
        _ => panic!("expected set"),
    }
}

#[test]
fn scripts_and_unhandled() {
    match plan(Command::Script(vec!["a.gram".to_string()])) {
        Action::RunScripts { files } => assert_eq!(files, vec!["a.gram"]),
        _ => panic!("expected scripts"),
    }
    assert!(matches!(plan(Command::Clear), Action::Nothing));
}

#[test]
fn info_note_and_show_message() {
    assert!(matches!(plan(Command::Me), Action::Me));
    match plan(Command::Chat { chat: GramChat::Label("bob".to_string()) }) {
        Action::ChatInfo { chat } => assert_eq!(chat, GramChat::Label("bob".to_string())),
        _ => panic!("expected chat info"),
    }
    match plan(Command::Note { chat: GramChat::ChatId(4), note: "call back".to_string() }) {
        Action::Note { chat, note } => {
            assert_eq!(chat, GramChat::ChatId(4));
            assert_eq!(note, "call back");
        }
        _ => panic!("expected note"),
    }
    let cases = [
        (Command::Toml { target_chat: GramChat::ChatId(1), target_message: 10 }, MessageFormat::Toml),
        (Command::Ron { target_chat: GramChat::ChatId(1), target_message: 10 }, MessageFormat::Ron),
        (Command::Json { target_chat: GramChat::ChatId(1), target_message: 10 }, MessageFormat::Json),
    ];
    for (cmd, expected) in cases {
        match plan(cmd) {
            Action::ShowMessage { target_chat, target_message, format } => {
                assert_eq!(target_chat, GramChat::ChatId(1));
                assert_eq!(target_message, 10);
                assert_eq!(format, expected);
            }
            _ => panic!("expected show message"),
        }
    }
}

#[test]
fn forward_and_repost() {
    match plan(Command::Forward {
        target_chat: GramChat::Label("bob".to_string()),
        target_message: 5,
        to: GramChat::ChatId(9),
    }) {
        Action::Forward { target_chat, target_msg, to, forward } => {
            assert_eq!(target_chat, GramChat::Label("bob".to_string()));
            assert_eq!(target_msg, 5);
            assert_eq!(to, GramChat::ChatId(9));
            assert!(forward);
        }
        _ => panic!("expected forward"),
    }
    match plan(Command::Repost {
        target_chat: GramChat::ChatId(1),
        target_message: 2,
        to: GramChat::Label("me".to_string()),
    }) {
        Action::Forward { target_chat, target_msg, to, forward } => {
            assert_eq!(target_chat, GramChat::ChatId(1));
            assert_eq!(target_msg, 2);
            assert_eq!(to, GramChat::Label("me".to_string()));
            assert!(!forward);
        }
        _ => panic!("expected repost"),
    }
}

#[test]
fn search_in_chat_or_everywhere() {
    match plan(Command::Search { q: words("in bob hello there") }) {
        Action::Search { chat, q } => {
            assert_eq!(chat, Some(GramChat::Label("bob".to_string())));
            assert_eq!(q, "hello there");
        }
        _ => panic!("expected search"),
    }
    match plan(Command::Search { q: words("in -100 hi") }) {
        Action::Search { chat, q } => {
            assert_eq!(chat, Some(GramChat::ChatId(-100)));
            assert_eq!(q, "hi");
        }
        _ => panic!("expected search"),
    }
    match plan(Command::Search { q: words("hello world") }) {
        Action::Search { chat, q } => {
            assert_eq!(chat, None);
            assert_eq!(q, "hello world");
        }
        _ => panic!("expected search"),
    }
    match plan(Command::Search { q: words("in") }) {
        Action::Search { chat, q } => {
            assert_eq!(chat, None);
            assert_eq!(q, "in");
        }
        _ => panic!("expected search"),
    }
    match plan(Command::Gsearch { q: words("in bob hello") }) {
        Action::Search { chat, q } => {
            assert_eq!(chat, None);
            assert_eq!(q, "in bob hello");
        }
        _ => panic!("expected global search"),
    }
}

#[test]
fn message_actions() {
    match plan(Command::Pin { target_chat: GramChat::ChatId(1), target_message: 2 }) {
        Action::Pin { target_chat, target_message } => {
            assert_eq!(target_chat, GramChat::ChatId(1));
            assert_eq!(target_message, 2);
        }
        _ => panic!("expected pin"),
    }
    match plan(Command::Unpin { target_chat: GramChat::ChatId(3), target_message: 4 }) {
        Action::Unpin { target_chat, target_message } => {
            assert_eq!(target_chat, GramChat::ChatId(3));
            assert_eq!(target_message, 4);
        }
        _ => panic!("expected unpin"),
    }
    match plan(Command::Delete { target_chat: GramChat::Label("x".to_string()), target_message: 6 }) {
        Action::Delete { target_chat, target_message } => {
            assert_eq!(target_chat, GramChat::Label("x".to_string()));
            assert_eq!(target_message, 6);
        }
        _ => panic!("expected delete"),
    }
    match plan(Command::Edit {
        target_chat: GramChat::ChatId(7),
        target_message: 8,
        message: words("new text here"),
    }) {
        Action::Edit { target_chat, target_message, text } => {
            assert_eq!(target_chat, GramChat::ChatId(7));
            assert_eq!(target_message, 8);
            assert_eq!(text, "new text here");
        }
        _ => panic!("expected edit"),
    }
}
