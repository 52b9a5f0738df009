//! The user-tunable settings stored under `[settings]` in the configuration.
use crate::conf::{ChatSenderMode, UserSenderMode};
use crate::text::{decimal, i64_to_string};
use vstd::prelude::*;
use vstd::string::*;

verus! {

/// What `format!("{:?}", s)` writes for a string `s`: `s` in double quotes
/// with its special characters escaped.
pub uninterp spec fn str_debug(s: Seq<char>) -> Seq<char>;

/// The integer that the TOML value `s` holds, when it is one that fits in
/// an `i32`.
pub uninterp spec fn toml_i32(s: Seq<char>) -> Option<i32>;

/// The boolean that the TOML value `s` holds, when it is one.
pub uninterp spec fn toml_bool(s: Seq<char>) -> Option<bool>;

/// Trusted: formats `s` with `<str as Debug>::fmt`; the contract claims only
/// that the result is a function of `s` (named `str_debug`).
#[verifier::external_body]
fn debug_str(s: &str) -> (res: String)
    ensures
        res@ == str_debug(s@),
{
    format!("{:?}", s)
}

/// Trusted: parses `value` with `toml::de::ValueDeserializer::parse` and
/// deserializes the parsed value as an `i32`; `None` when either step fails.
/// The contract claims only that the outcome is a function of `value`
/// (named `toml_i32`), and that the plain decimal form of an `i32`, as
/// TOML writes integers, gives that integer; the rest of the TOML integer
/// grammar (`_` separators, `+`, hexadecimal, ...) is left unstated.
#[verifier::external_body]
fn parse_toml_i32(value: &str) -> (res: Option<i32>)
    ensures
        res == toml_i32(value@),
        forall|n: i32| value@ == decimal(n as int) ==> res == Some(n),
{
    match toml::de::ValueDeserializer::parse(value) {
        Ok(de) => <i32 as serde::Deserialize>::deserialize(de).ok(),
        Err(_) => None,
    }
}

/// Trusted: parses `value` with `toml::de::ValueDeserializer::parse` and
/// deserializes the parsed value as a `bool`; `None` when either step fails.
/// The contract claims that the outcome is a function of `value` (named
/// `toml_bool`) and that the TOML literals `true` and `false` give those
/// booleans.
#[verifier::external_body]
fn parse_toml_bool(value: &str) -> (res: Option<bool>)
    ensures
        res == toml_bool(value@),
        value@ == "true"@ ==> res == Some(true),
        value@ == "false"@ ==> res == Some(false),
{
    match toml::de::ValueDeserializer::parse(value) {
        Ok(de) => <bool as serde::Deserialize>::deserialize(de).ok(),
        Err(_) => None,
    }
}

/// The settings of gram, with the defaults that a configuration without a
/// `[settings]` table gets.
pub struct GramSettings {
    /// user sender mode to display sender users with
    pub user_sender_mode: UserSenderMode,
    /// chat sender mode to display sender chats with
    pub chat_sender_mode: ChatSenderMode,
    /// max length before shortening (appending '...') message / username / other text;
    /// -1 means no shortening at all
    pub max_len_before_shortening: i32,
    /// whether the terminal output is colored
    pub color: bool,
    /// whether telegram's internal ids are shown (the setting `dev_mode`)
    pub dev: bool,
}

/// The value that a TOML text decodes to for each of the two sender-mode
/// settings, `None` where it is not a valid value of that type. Decoding
/// into these types is done by the caller.
pub struct DecodedModes {
    pub user: Option<UserSenderMode>,
    pub chat: Option<ChatSenderMode>,
}

/// A value decoded for one of the settings.
pub enum SettingValue {
    UserMode(UserSenderMode),
    ChatMode(ChatSenderMode),
    Length(i32),
    Flag(bool),
}

/// The settings `s` with the setting at position `i` set to `v`, or `None`
/// where `v` is not of that setting's type (or there is no such setting).
pub open spec fn with_setting(s: GramSettings, i: int, v: SettingValue) -> Option<GramSettings> {
    match v {
        SettingValue::UserMode(m) => if i == 0 {
            Some(GramSettings { user_sender_mode: m, ..s })
        } else {
            None
        },
        SettingValue::ChatMode(m) => if i == 1 {
            Some(GramSettings { chat_sender_mode: m, ..s })
        } else {
            None
        },
        SettingValue::Length(n) => if i == 2 {
            Some(GramSettings { max_len_before_shortening: n, ..s })
        } else {
            None
        },
        SettingValue::Flag(b) => if i == 3 {
            Some(GramSettings { color: b, ..s })
        } else if i == 4 {
            Some(GramSettings { dev: b, ..s })
        } else {
            None
        },
    }
}

/// The names of the settings, in the order in which they are listed.
pub open spec fn setting_keys() -> Seq<Seq<char>> {
    seq![
        "user_sender_mode"@,
        "chat_sender_mode"@,
        "max_len_before_shortening"@,
        "color"@,
        "dev_mode"@,
    ]
}

/// What `{:?}` writes for a user sender mode.
pub open spec fn user_mode_debug(m: UserSenderMode) -> Seq<char> {
    match m {
        UserSenderMode::FirstAndLastName => "FirstAndLastName"@,
        UserSenderMode::FirstName => "FirstName"@,
        UserSenderMode::LastName => "LastName"@,
        UserSenderMode::UserId => "UserId"@,
        UserSenderMode::Custom(f) => "Custom("@ + str_debug(f@) + ")"@,
    }
}

/// What `{:?}` writes for a chat sender mode.
pub open spec fn chat_mode_debug(m: ChatSenderMode) -> Seq<char> {
    match m {
        ChatSenderMode::Label => "Label"@,
        ChatSenderMode::Title => "Title"@,
        ChatSenderMode::ChatId => "ChatId"@,
        ChatSenderMode::Custom(f) => "Custom("@ + str_debug(f@) + ")"@,
    }
}

/// What `{:?}` writes for a boolean.
pub open spec fn bool_debug(b: bool) -> Seq<char> {
    if b {
        "true"@
    } else {
        "false"@
    }
}

/// The shown value of a sender mode names that mode: each plain mode shows
/// its own variant name, and two different modes show different texts
/// (unless both are custom patterns).
pub proof fn lemma_mode_texts_name_the_mode(a: UserSenderMode, b: UserSenderMode, c: ChatSenderMode, d: ChatSenderMode)
    ensures
        user_mode_debug(UserSenderMode::FirstAndLastName) == "FirstAndLastName"@,
        user_mode_debug(UserSenderMode::FirstName) == "FirstName"@,
        user_mode_debug(UserSenderMode::LastName) == "LastName"@,
        user_mode_debug(UserSenderMode::UserId) == "UserId"@,
        chat_mode_debug(ChatSenderMode::Label) == "Label"@,
        chat_mode_debug(ChatSenderMode::Title) == "Title"@,
        chat_mode_debug(ChatSenderMode::ChatId) == "ChatId"@,
        a != b && !(a is Custom && b is Custom) ==> user_mode_debug(a) != user_mode_debug(b),
        c != d && !(c is Custom && d is Custom) ==> chat_mode_debug(c) != chat_mode_debug(d),
{
    reveal_strlit("FirstAndLastName");
    reveal_strlit("FirstName");
    reveal_strlit("LastName");
    reveal_strlit("UserId");
    reveal_strlit("Custom(");
    reveal_strlit(")");
    reveal_strlit("Label");
    reveal_strlit("Title");
    reveal_strlit("ChatId");
    if a != b && !(a is Custom && b is Custom) {
        let ta = user_mode_debug(a);
        let tb = user_mode_debug(b);
        if a is FirstAndLastName && b is FirstName || a is FirstName && b is FirstAndLastName {
            assert(ta.len() != tb.len());
        } else {
            assert(ta[0] != tb[0]);
        }
    }
    if c != d && !(c is Custom && d is Custom) {
        let tc = chat_mode_debug(c);
        let td = chat_mode_debug(d);
        if c is ChatId && d is Custom || c is Custom && d is ChatId {
            assert(tc[1] != td[1]);
        } else {
            assert(tc[0] != td[0]);
        }
    }
}

/// The displayed value of the setting at position `i` of `setting_keys()`.
pub open spec fn setting_value_text(s: GramSettings, i: int) -> Seq<char> {
    if i == 0 {
        user_mode_debug(s.user_sender_mode)
    } else if i == 1 {
        chat_mode_debug(s.chat_sender_mode)
    } else if i == 2 {
        decimal(s.max_len_before_shortening as int)
    } else if i == 3 {
        bool_debug(s.color)
    } else {
        bool_debug(s.dev)
    }
}

/// The position of `key` among the setting names, if it is one of them.
pub open spec fn setting_index(key: Seq<char>) -> Option<int> {
    if key == setting_keys()[0] {
        Some(0)
    } else if key == setting_keys()[1] {
        Some(1)
    } else if key == setting_keys()[2] {
        Some(2)
    } else if key == setting_keys()[3] {
        Some(3)
    } else if key == setting_keys()[4] {
        Some(4)
    } else {
        None
    }
}

fn user_mode_text(m: &UserSenderMode) -> (res: String)
    ensures
        res@ == user_mode_debug(*m),
{
    match m {
        UserSenderMode::FirstAndLastName => "FirstAndLastName".to_string(),
        UserSenderMode::FirstName => "FirstName".to_string(),
        UserSenderMode::LastName => "LastName".to_string(),
        UserSenderMode::UserId => "UserId".to_string(),
        UserSenderMode::Custom(f) => {
            let mut res = "Custom(".to_string();
            let d = debug_str(f.as_str());
            res.append(d.as_str());
            res.append(")");
            res
        },
    }
}

fn chat_mode_text(m: &ChatSenderMode) -> (res: String)
    ensures
        res@ == chat_mode_debug(*m),
{
    match m {
        ChatSenderMode::Label => "Label".to_string(),
        ChatSenderMode::Title => "Title".to_string(),
        ChatSenderMode::ChatId => "ChatId".to_string(),
        ChatSenderMode::Custom(f) => {
            let mut res = "Custom(".to_string();
            let d = debug_str(f.as_str());
            res.append(d.as_str());
            res.append(")");
            res
        },
    }
}

fn bool_text(b: bool) -> (res: String)
    ensures
        res@ == bool_debug(b),
{
    if b {
        "true".to_string()
    } else {
        "false".to_string()
    }
}

fn key_index(key: &str) -> (res: Option<usize>)
    ensures
        res matches Some(i) ==> setting_index(key@) == Some(i as int),
        res is None ==> setting_index(key@) is None,
{
    if crate::text::str_eq(key, "user_sender_mode") {
        Some(0)
    } else if crate::text::str_eq(key, "chat_sender_mode") {
        Some(1)
    } else if crate::text::str_eq(key, "max_len_before_shortening") {
        Some(2)
    } else if crate::text::str_eq(key, "color") {
        Some(3)
    } else if crate::text::str_eq(key, "dev_mode") {
        Some(4)
    } else {
        None
    }
}

impl GramSettings {
    /// The defaults: first and last name for users, title for chats, no
    /// shortening, colors on, internal ids shown.
    pub fn new() -> (s: Self)
        ensures
            s.user_sender_mode == UserSenderMode::FirstAndLastName,
            s.chat_sender_mode == ChatSenderMode::Title,
            s.max_len_before_shortening == -1,
            s.color,
            s.dev,
    {
        GramSettings {
            user_sender_mode: crate::conf::default_user_sender_mode(),
            chat_sender_mode: crate::conf::default_chat_sender_mode(),
            max_len_before_shortening: crate::conf::default_max_length(),
            color: crate::conf::default_true(),
            dev: crate::conf::default_true(),
        }
    }

    fn value_text(&self, i: usize) -> (res: String)
        requires
            i < 5,
        ensures
            res@ == setting_value_text(*self, i as int),
    {
        if i == 0 {
            user_mode_text(&self.user_sender_mode)
        } else if i == 1 {
            chat_mode_text(&self.chat_sender_mode)
        } else if i == 2 {
            i64_to_string(self.max_len_before_shortening as i64)
        } else if i == 3 {
            bool_text(self.color)
        } else {
            bool_text(self.dev)
        }
    }

    /// The displayed value of the setting `key`, or `"unknown setting"`.
    pub fn get(&self, key: &str) -> (res: Result<String, &'static str>)
        ensures
            setting_index(key@) matches Some(i) ==> (res matches Ok(v) && v@ == setting_value_text(
                *self,
                i,
            )),
            setting_index(key@) is None ==> (res matches Err(e) && e@ == "unknown setting"@),
    {
        match key_index(key) {
            Some(i) => Ok(self.value_text(i)),
            None => Err("unknown setting"),
        }
    }

    /// Every setting with its displayed value, in declaration order.
    pub fn iter(&self) -> (res: Vec<(&'static str, String)>)
        ensures
            res@.len() == 5,
            forall|i: int|
                0 <= i < 5 ==> (#[trigger] res@[i]).0@ == setting_keys()[i] && res@[i].1@
                    == setting_value_text(*self, i),
    {
        let mut res: Vec<(&'static str, String)> = Vec::new();
        res.push(("user_sender_mode", self.value_text(0)));
        res.push(("chat_sender_mode", self.value_text(1)));
        res.push(("max_len_before_shortening", self.value_text(2)));
        res.push(("color", self.value_text(3)));
        res.push(("dev_mode", self.value_text(4)));
        res
    }

    /// Sets the setting `key` from the TOML text `value`. The two sender
    /// modes take their value from `modes`, what `value` decodes to; the
    /// length limit and the two flags are read from `value` here. Errors are
    /// `"unknown setting"` and `"invalid value"`; on an error nothing changes.
    pub fn set(&mut self, key: &str, value: &str, modes: DecodedModes) -> (res: Result<
        (),
        &'static str,
    >)
        ensures
            setting_index(key@) is None ==> (res matches Err(e) && e@ == "unknown setting"@
                && *final(self) == *old(self)),
            setting_index(key@) == Some(0int) ==> match modes.user {
                Some(m) => res is Ok && *final(self) == (GramSettings {
                    user_sender_mode: m,
                    ..*old(self)
                }),
                None => res matches Err(e) && e@ == "invalid value"@ && *final(self) == *old(
                    self,
                ),
            },
            setting_index(key@) == Some(1int) ==> match modes.chat {
                Some(m) => res is Ok && *final(self) == (GramSettings {
                    chat_sender_mode: m,
                    ..*old(self)
                }),
                None => res matches Err(e) && e@ == "invalid value"@ && *final(self) == *old(
                    self,
                ),
            },
            setting_index(key@) == Some(2int) ==> match toml_i32(value@) {
                Some(n) => res is Ok && *final(self) == (GramSettings {
                    max_len_before_shortening: n,
                    ..*old(self)
                }),
                None => res matches Err(e) && e@ == "invalid value"@ && *final(self) == *old(
                    self,
                ),
            },
            setting_index(key@) == Some(3int) ==> match toml_bool(value@) {
                Some(b) => res is Ok && *final(self) == (GramSettings { color: b, ..*old(self) }),
                None => res matches Err(e) && e@ == "invalid value"@ && *final(self) == *old(
                    self,
                ),
            },
            setting_index(key@) == Some(4int) ==> match toml_bool(value@) {
                Some(b) => res is Ok && *final(self) == (GramSettings { dev: b, ..*old(self) }),
                None => res matches Err(e) && e@ == "invalid value"@ && *final(self) == *old(
                    self,
                ),
            },
            forall|n: i32|
                #![trigger decimal(n as int)]
                setting_index(key@) == Some(2int) && value@ == decimal(n as int) ==> res is Ok
                    && final(self).max_len_before_shortening == n,
            setting_index(key@) == Some(3int) && (value@ == "true"@ || value@ == "false"@) ==> (
            res is Ok && final(self).color == (value@ == "true"@)),
            setting_index(key@) == Some(4int) && (value@ == "true"@ || value@ == "false"@) ==> (
            res is Ok && final(self).dev == (value@ == "true"@)),
    {
        match key_index(key) {
            None => Err("unknown setting"),
            Some(i) => {
                let parsed = if i == 0 {
                    match modes.user {
                        Some(m) => Some(SettingValue::UserMode(m)),
                        None => None,
                    }
                } else if i == 1 {
                    match modes.chat {
                        Some(m) => Some(SettingValue::ChatMode(m)),
                        None => None,
                    }
                } else if i == 2 {
                    match parse_toml_i32(value) {
                        Some(n) => Some(SettingValue::Length(n)),
                        None => None,
                    }
                } else {
                    match parse_toml_bool(value) {
                        Some(b) => Some(SettingValue::Flag(b)),
                        None => None,
                    }
                };
                self.apply_parsed(i, parsed)
            },
        }
    }

    /// Sets the setting at position `index` of `setting_keys()` to what its
    /// text was decoded to; `"invalid value"`, with nothing changed, where
    /// nothing was decoded or the value is not of that setting's type.
    pub fn apply_parsed(&mut self, index: usize, parsed: Option<SettingValue>) -> (res: Result<
        (),
        &'static str,
    >)
        ensures
            match (match parsed {
                Some(v) => with_setting(*old(self), index as int, v),
                None => None,
            }) {
                Some(t) => res is Ok && *final(self) == t,
                None => res matches Err(e) && e@ == "invalid value"@ && *final(self) == *old(self),
            },
    {
        match parsed {
            None => Err("invalid value"),
            Some(SettingValue::UserMode(m)) => {
                if index == 0 {
                    self.user_sender_mode = m;
                    Ok(())
                } else {
                    Err("invalid value")
                }
            },
            Some(SettingValue::ChatMode(m)) => {
                if index == 1 {
                    self.chat_sender_mode = m;
                    Ok(())
                } else {
                    Err("invalid value")
                }
            },
            Some(SettingValue::Length(n)) => {
                if index == 2 {
                    self.max_len_before_shortening = n;
                    Ok(())
                } else {
                    Err("invalid value")
                }
            },
            Some(SettingValue::Flag(b)) => {
                if index == 3 {
                    self.color = b;
                    Ok(())
                } else if index == 4 {
                    self.dev = b;
                    Ok(())
                } else {
                    Err("invalid value")
                }
            },
        }
    }
}


/// A setting shows the value it was set to, and setting one leaves the
/// others showing what they showed.
pub proof fn lemma_set_then_get(s: GramSettings, n: i32, b: bool, i: int)
    requires
        0 <= i < 5,
    ensures
        setting_value_text(GramSettings { max_len_before_shortening: n, ..s }, 2) == decimal(n as int),
        setting_value_text(GramSettings { color: b, ..s }, 3) == bool_debug(b),
        setting_value_text(GramSettings { dev: b, ..s }, 4) == bool_debug(b),
        i != 2 ==> setting_value_text(GramSettings { max_len_before_shortening: n, ..s }, i)
            == setting_value_text(s, i),
        i != 3 ==> setting_value_text(GramSettings { color: b, ..s }, i) == setting_value_text(s, i),
        i != 4 ==> setting_value_text(GramSettings { dev: b, ..s }, i) == setting_value_text(s, i),
{
}

/// Every setting name is found, at its own position.
pub proof fn lemma_setting_keys_found(i: int)
    requires
        0 <= i < 5,
    ensures
        setting_index(setting_keys()[i]) == Some(i),
{
    reveal_strlit("user_sender_mode");
    reveal_strlit("chat_sender_mode");
    reveal_strlit("max_len_before_shortening");
    reveal_strlit("color");
    reveal_strlit("dev_mode");
    assert(setting_keys()[0][0] != setting_keys()[1][0]);
    assert(setting_keys()[0] != setting_keys()[1]);
    assert(setting_keys()[0].len() != setting_keys()[2].len());
    assert(setting_keys()[0] != setting_keys()[2]);
    assert(setting_keys()[0].len() != setting_keys()[3].len());
    assert(setting_keys()[0] != setting_keys()[3]);
    assert(setting_keys()[0].len() != setting_keys()[4].len());
    assert(setting_keys()[0] != setting_keys()[4]);
    assert(setting_keys()[1].len() != setting_keys()[2].len());
    assert(setting_keys()[1] != setting_keys()[2]);
    assert(setting_keys()[1].len() != setting_keys()[3].len());
    assert(setting_keys()[1] != setting_keys()[3]);
    assert(setting_keys()[1].len() != setting_keys()[4].len());
    assert(setting_keys()[1] != setting_keys()[4]);
    assert(setting_keys()[2].len() != setting_keys()[3].len());
    assert(setting_keys()[2] != setting_keys()[3]);
    assert(setting_keys()[2].len() != setting_keys()[4].len());
    assert(setting_keys()[2] != setting_keys()[4]);
    assert(setting_keys()[3].len() != setting_keys()[4].len());
    assert(setting_keys()[3] != setting_keys()[4]);
}

} // verus!
