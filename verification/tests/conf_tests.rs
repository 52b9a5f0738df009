use gram::chat::GramChat;
use gram::conf::{
    default_chat_sender_mode, default_encryption, default_false, default_labels, default_max_length,
    default_settings, default_true, default_user_sender_mode, Chat, ChatSenderMode, GramConf,
    GramLabel, User, UserSenderMode,
};
use std::collections::HashMap;

fn conf() -> GramConf {
    GramConf { labels: default_labels(), settings: default_settings(), encryption: default_encryption() }
}

fn user() -> User {
    User { id: 42, first_name: "Ada".to_string(), last_name: "Lovelace".to_string() }
}

fn chat(id: i64, title: &str) -> Chat {
    Chat { id, title: title.to_string() }
}

#[test]
fn defaults() {
    assert!(default_true());
    assert!(!default_false());
    assert_eq!(default_max_length(), -1);
    assert!(default_encryption().is_none());
    assert!(default_labels().is_empty());
    assert!(matches!(default_user_sender_mode(), UserSenderMode::FirstAndLastName));
    assert!(matches!(default_chat_sender_mode(), ChatSenderMode::Title));
    let s = default_settings();
    assert!(s.color && s.dev && s.max_len_before_shortening == -1);
}

#[test]
fn user_modes() {
    assert_eq!(UserSenderMode::FirstAndLastName.with_user(user()), "Ada Lovelace");
    assert_eq!(UserSenderMode::FirstName.with_user(user()), "Ada");
    assert_eq!(UserSenderMode::LastName.with_user(user()), "Lovelace");
    assert_eq!(UserSenderMode::UserId.with_user(user()), "42");
}

#[test]
fn user_custom_pattern_from_docs() {
    let m = UserSenderMode::Custom("{{first_name}} {{last_name}} ({{user_id}})".to_string());
    assert_eq!(m.with_user(user()), "Ada Lovelace (42)");
}

#[test]
fn custom_pattern_without_placeholders() {
    let m = UserSenderMode::Custom("someone".to_string());
    assert_eq!(m.with_user(user()), "someone");
    let c = ChatSenderMode::Custom("a chat".to_string());
    assert_eq!(c.with_chat(&conf(), chat(1, "t")), "a chat");
}

#[test]
fn chat_modes() {
    let mut c = conf();
    c.label(-100, "friends".to_string());
    assert_eq!(ChatSenderMode::Label.with_chat(&c, chat(-100, "Friends Group")), "friends");
    assert_eq!(ChatSenderMode::Label.with_chat(&c, chat(7, "Other")), "Other");
    assert_eq!(ChatSenderMode::Title.with_chat(&c, chat(7, "Other")), "Other");
    assert_eq!(ChatSenderMode::ChatId.with_chat(&c, chat(-100, "x")), "-100");
}

#[test]
fn chat_custom_pattern_from_docs() {
    let mut c = conf();
    c.label(-100, "friends".to_string());
    let m = ChatSenderMode::Custom("{{title}}/{{label}}/{{chat_id}}".to_string());
    assert_eq!(m.with_chat(&c, chat(-100, "Friends Group")), "Friends Group/friends/-100");
    assert_eq!(m.with_chat(&c, chat(5, "Solo")), "Solo/Solo/5");
}

#[test]
fn label_then_get() {
    let mut c = conf();
    assert_eq!(c.get_label(5), None);
    c.label(5, "bob".to_string());
    c.label(6, "alice".to_string());
    assert_eq!(c.get_label(5), Some("bob".to_string()));
    c.label(5, "robert".to_string());
    assert_eq!(c.get_label(5), Some("robert".to_string()));
    assert_eq!(c.get_label(6), Some("alice".to_string()));
}

#[test]
fn resolve_labels_and_ids() {
    let mut c = conf();
    c.label(77, "bob".to_string());
    assert_eq!(c.resolve_user(GramChat::Label("bob".to_string())), Some(77));
    assert_eq!(c.resolve_user(GramChat::Label("carol".to_string())), None);
    assert_eq!(c.resolve_user(GramChat::ChatId(-5)), Some(-5));
}

#[test]
fn resolve_shared_label_gives_one_of_them() {
    let mut labels = HashMap::new();
    labels.insert(1, GramLabel { name: "x".to_string() });
    labels.insert(2, GramLabel { name: "x".to_string() });
    let c = GramConf { labels, settings: default_settings(), encryption: None };
    let r = c.resolve_user(GramChat::Label("x".to_string()));
    assert!(r == Some(1) || r == Some(2));
}
