use gram::conf::{ChatSenderMode, UserSenderMode};
use gram::settings::{DecodedModes, GramSettings, SettingValue};

fn no_modes() -> DecodedModes {
    DecodedModes { user: None, chat: None }
}

#[test]
fn new_settings_show_defaults() {
    let s = GramSettings::new();
    assert_eq!(s.get("user_sender_mode"), Ok("FirstAndLastName".to_string()));
    assert_eq!(s.get("chat_sender_mode"), Ok("Title".to_string()));
    assert_eq!(s.get("max_len_before_shortening"), Ok("-1".to_string()));
    assert_eq!(s.get("color"), Ok("true".to_string()));
    assert_eq!(s.get("dev_mode"), Ok("true".to_string()));
}

#[test]
fn unknown_setting() {
    let mut s = GramSettings::new();
    assert_eq!(s.get("dev"), Err("unknown setting"));
    assert_eq!(s.set("dev", "true", no_modes()), Err("unknown setting"));
}

#[test]
fn set_integer_and_flags() {
    let mut s = GramSettings::new();
    assert_eq!(s.set("max_len_before_shortening", "20", no_modes()), Ok(()));
    assert_eq!(s.get("max_len_before_shortening"), Ok("20".to_string()));
    assert_eq!(s.set("color", "false", no_modes()), Ok(()));
    assert_eq!(s.get("color"), Ok("false".to_string()));
    assert_eq!(s.set("dev_mode", "false", no_modes()), Ok(()));
    assert!(!s.dev);
    assert_eq!(s.set("dev_mode", "true", no_modes()), Ok(()));
    assert!(s.dev);
    assert_eq!(s.set("max_len_before_shortening", "-7", no_modes()), Ok(()));
    assert_eq!(s.max_len_before_shortening, -7);
}

#[test]
fn set_invalid_values_changes_nothing() {
    let mut s = GramSettings::new();
    assert_eq!(s.set("max_len_before_shortening", "abc", no_modes()), Err("invalid value"));
    assert_eq!(s.set("max_len_before_shortening", "3000000000", no_modes()), Err("invalid value"));
    assert_eq!(s.set("color", "yes", no_modes()), Err("invalid value"));
    assert_eq!(s.set("user_sender_mode", "bogus", no_modes()), Err("invalid value"));
    assert_eq!(s.get("max_len_before_shortening"), Ok("-1".to_string()));
    assert_eq!(s.get("color"), Ok("true".to_string()));
}

#[test]
fn set_modes() {
    let mut s = GramSettings::new();
    let modes = DecodedModes { user: Some(UserSenderMode::UserId), chat: Some(ChatSenderMode::ChatId) };
    assert_eq!(s.set("user_sender_mode", "\"user_id\"", modes), Ok(()));
    assert_eq!(s.get("user_sender_mode"), Ok("UserId".to_string()));
    let modes = DecodedModes { user: None, chat: Some(ChatSenderMode::Label) };
    assert_eq!(s.set("chat_sender_mode", "\"label\"", modes), Ok(()));
    assert_eq!(s.get("chat_sender_mode"), Ok("Label".to_string()));
}

#[test]
fn custom_mode_is_shown_with_debug_quotes() {
    let mut s = GramSettings::new();
    let modes = DecodedModes { user: Some(UserSenderMode::Custom("a\"b".to_string())), chat: None };
    assert_eq!(s.set("user_sender_mode", "{ custom = 'a\"b' }", modes), Ok(()));
    assert_eq!(s.get("user_sender_mode"), Ok("Custom(\"a\\\"b\")".to_string()));
}

#[test]
fn iter_lists_every_setting_in_order() {
    let s = GramSettings::new();
    let all = s.iter();
    let keys: Vec<&str> = all.iter().map(|(k, _)| *k).collect();
    assert_eq!(keys, vec!["user_sender_mode", "chat_sender_mode", "max_len_before_shortening", "color", "dev_mode"]);
    assert_eq!(all[2].1, "-1");
}

#[test]
fn apply_parsed_sets_matching_values_only() {
    let mut s = GramSettings::new();
    assert_eq!(s.apply_parsed(2, Some(SettingValue::Length(5))), Ok(()));
    assert_eq!(s.max_len_before_shortening, 5);
    assert_eq!(s.apply_parsed(3, Some(SettingValue::Flag(false))), Ok(()));
    assert!(!s.color);
    assert_eq!(s.apply_parsed(4, Some(SettingValue::Flag(false))), Ok(()));
    assert!(!s.dev);
    assert_eq!(s.apply_parsed(0, Some(SettingValue::UserMode(UserSenderMode::FirstName))), Ok(()));
    assert!(matches!(s.user_sender_mode, UserSenderMode::FirstName));
    assert_eq!(s.apply_parsed(1, Some(SettingValue::ChatMode(ChatSenderMode::ChatId))), Ok(()));
    assert!(matches!(s.chat_sender_mode, ChatSenderMode::ChatId));
    assert_eq!(s.apply_parsed(2, Some(SettingValue::Flag(true))), Err("invalid value"));
    assert_eq!(s.apply_parsed(3, None), Err("invalid value"));
    assert_eq!(s.apply_parsed(7, Some(SettingValue::Length(1))), Err("invalid value"));
    assert_eq!(s.max_len_before_shortening, 5);
    assert!(!s.color);
}

#[test]
fn toml_literals_decode() {
    let mut s = GramSettings::new();
    assert_eq!(s.set("color", "false", no_modes()), Ok(()));
    assert_eq!(s.get("color"), Ok("false".to_string()));
    assert_eq!(s.set("color", "true", no_modes()), Ok(()));
    assert!(s.color);
    assert_eq!(s.set("max_len_before_shortening", "2147483647", no_modes()), Ok(()));
    assert_eq!(s.max_len_before_shortening, i32::MAX);
    assert_eq!(s.set("max_len_before_shortening", "-2147483648", no_modes()), Ok(()));
    assert_eq!(s.max_len_before_shortening, i32::MIN);
}
