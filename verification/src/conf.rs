//! The configuration: chat labels, sender display modes and settings.
use crate::chat::GramChat;
use crate::settings::GramSettings;
use crate::text::{decimal, i64_to_string, replace, replaced};
use std::collections::HashMap;
use vstd::prelude::*;
use vstd::string::*;
use vstd::std_specs::iter::IteratorSpec;

verus! {

broadcast use vstd::std_specs::hash::group_hash_axioms;

/// A gram label: a name the user gave a telegram chat.
pub struct GramLabel {
    /// name of the gram label
    pub name: String,
}

/// What gram reads of a telegram user.
pub struct User {
    pub id: i64,
    pub first_name: String,
    pub last_name: String,
}

/// What gram reads of a telegram chat.
pub struct Chat {
    pub id: i64,
    pub title: String,
}

/// How senders that are users are named in notifications.
pub enum UserSenderMode {
    /// labels user senders by first and last name
    FirstAndLastName,
    /// labels user senders by first name only
    FirstName,
    /// labels user senders by last name only
    LastName,
    /// labels user senders by telegram user ID
    UserId,
    /// labels user senders by custom pattern, in which `{{first_name}}`,
    /// `{{last_name}}` and `{{user_id}}` are replaced
    Custom(String),
}

/// How senders that are chats are named in notifications.
pub enum ChatSenderMode {
    /// labels chat senders by gram label
    Label,
    /// labels chat senders by chat title
    Title,
    /// labels chat senders by telegram chat ID
    ChatId,
    /// labels chat senders by custom pattern, in which `{{title}}`,
    /// `{{label}}` and `{{chat_id}}` are replaced
    Custom(String),
}

/// The gram configuration.
pub struct GramConf {
    /// map between telegram chat id and gram labels so you can later reference gram labels for
    /// more convenience
    pub labels: HashMap<i64, GramLabel>,
    pub settings: GramSettings,
    pub encryption: Option<String>,
}

/// How a user is named under `mode`.
pub open spec fn user_sender_text(mode: UserSenderMode, u: User) -> Seq<char> {
    match mode {
        UserSenderMode::FirstAndLastName => u.first_name@ + seq![' '] + u.last_name@,
        UserSenderMode::FirstName => u.first_name@,
        UserSenderMode::LastName => u.last_name@,
        UserSenderMode::UserId => decimal(u.id as int),
        UserSenderMode::Custom(f) => replaced(
            replaced(replaced(f@, "{{first_name}}"@, u.first_name@), "{{last_name}}"@, u.last_name@),
            "{{user_id}}"@,
            decimal(u.id as int),
        ),
    }
}

/// The label of `chat` when it has one, else its title.
pub open spec fn label_or_title(labels: Map<i64, GramLabel>, chat: Chat) -> Seq<char> {
    if labels.contains_key(chat.id) {
        labels[chat.id].name@
    } else {
        chat.title@
    }
}

/// How a chat is named under `mode`.
pub open spec fn chat_sender_text(mode: ChatSenderMode, labels: Map<i64, GramLabel>, c: Chat) -> Seq<char> {
    match mode {
        ChatSenderMode::Label => label_or_title(labels, c),
        ChatSenderMode::Title => c.title@,
        ChatSenderMode::ChatId => decimal(c.id as int),
        ChatSenderMode::Custom(f) => replaced(
            replaced(replaced(f@, "{{title}}"@, c.title@), "{{label}}"@, label_or_title(labels, c)),
            "{{chat_id}}"@,
            decimal(c.id as int),
        ),
    }
}

impl UserSenderMode {
    /// The name of `user` as this mode writes it.
    pub fn with_user(&self, user: User) -> (res: String)
        ensures
            res@ == user_sender_text(*self, user),
    {
        match self {
            UserSenderMode::FirstAndLastName => {
                proof {
                    reveal_strlit(" ");
                }
                let mut res = user.first_name;
                res.append(" ");
                res.append(user.last_name.as_str());
                res
            },
            UserSenderMode::FirstName => user.first_name,
            UserSenderMode::LastName => user.last_name,
            UserSenderMode::UserId => i64_to_string(user.id),
            UserSenderMode::Custom(fmt) => {
                proof {
                    reveal_strlit("{{first_name}}");
                    reveal_strlit("{{last_name}}");
                    reveal_strlit("{{user_id}}");
                }
                let a = replace(fmt.as_str(), "{{first_name}}", user.first_name.as_str());
                let b = replace(a.as_str(), "{{last_name}}", user.last_name.as_str());
                let id = i64_to_string(user.id);
                replace(b.as_str(), "{{user_id}}", id.as_str())
            },
        }
    }
}

fn label_or_title_of(labels: &HashMap<i64, GramLabel>, chat: &Chat) -> (res: String)
    ensures
        res@ == label_or_title(labels@, *chat),
{
    match labels.get(&chat.id) {
        Some(l) => l.name.clone(),
        None => chat.title.clone(),
    }
}

impl ChatSenderMode {
    /// The name of `chat` as this mode writes it, with the labels of `conf`.
    pub fn with_chat(&self, conf: &GramConf, chat: Chat) -> (res: String)
        ensures
            res@ == chat_sender_text(*self, conf.labels@, chat),
    {
        match self {
            ChatSenderMode::Label => label_or_title_of(&conf.labels, &chat),
            ChatSenderMode::Title => chat.title,
            ChatSenderMode::ChatId => i64_to_string(chat.id),
            ChatSenderMode::Custom(fmt) => {
                proof {
                    reveal_strlit("{{title}}");
                    reveal_strlit("{{label}}");
                    reveal_strlit("{{chat_id}}");
                }
                let a = replace(fmt.as_str(), "{{title}}", chat.title.as_str());
                let l = label_or_title_of(&conf.labels, &chat);
                let b = replace(a.as_str(), "{{label}}", l.as_str());
                let id = i64_to_string(chat.id);
                replace(b.as_str(), "{{chat_id}}", id.as_str())
            },
        }
    }
}

/// No encryption key unless the configuration names one.
pub fn default_encryption() -> (res: Option<String>)
    ensures
        res is None,
{
    None
}

/// A `true` default.
pub fn default_true() -> (res: bool)
    ensures
        res,
{
    true
}

/// A `false` default.
pub fn default_false() -> (res: bool)
    ensures
        !res,
{
    false
}

/// No labels by default.
pub fn default_labels() -> (res: HashMap<i64, GramLabel>)
    ensures
        res@ == Map::<i64, GramLabel>::empty(),
{
    HashMap::new()
}

/// The default settings.
pub fn default_settings() -> (res: GramSettings)
    ensures
        res.user_sender_mode == UserSenderMode::FirstAndLastName,
        res.chat_sender_mode == ChatSenderMode::Title,
        res.max_len_before_shortening == -1,
        res.color,
        res.dev,
{
    GramSettings::new()
}

/// Users are named by first and last name by default.
pub fn default_user_sender_mode() -> (res: UserSenderMode)
    ensures
        res == UserSenderMode::FirstAndLastName,
{
    UserSenderMode::FirstAndLastName
}

/// Chats are named by title by default.
pub fn default_chat_sender_mode() -> (res: ChatSenderMode)
    ensures
        res == ChatSenderMode::Title,
{
    ChatSenderMode::Title
}

/// No shortening by default.
pub fn default_max_length() -> (res: i32)
    ensures
        res == -1,
{
    -1
}

impl GramConf {
    /// Attaches the label `name` to the chat `chat_id`, replacing the label
    /// it had.
    pub fn label(&mut self, chat_id: i64, name: String)
        ensures
            final(self).labels@ == old(self).labels@.insert(chat_id, GramLabel { name }),
            final(self).settings == old(self).settings,
            final(self).encryption == old(self).encryption,
    {
        let _ = self.labels.insert(chat_id, GramLabel { name });
    }

    /// The name of the label of the chat `chat_id`, if it has one.
    pub fn get_label(&self, chat_id: i64) -> (res: Option<String>)
        ensures
            res matches Some(n) ==> self.labels@.contains_key(chat_id) && n@
                == self.labels@[chat_id].name@,
            res is None ==> !self.labels@.contains_key(chat_id),
    {
        match self.labels.get(&chat_id) {
            Some(l) => Some(l.name.clone()),
            None => None,
        }
    }

    /// The chat id that `target_chat` refers to: the id itself, or a chat
    /// whose label has that name; `None` when no label has that name.
    /// Where several chats share the name, any one of them may come back.
    pub fn resolve_user(&self, target_chat: GramChat) -> (res: Option<i64>)
        ensures
            target_chat matches GramChat::ChatId(id) ==> res == Some(id),
            target_chat matches GramChat::Label(name) ==> match res {
                Some(k) => self.labels@.contains_key(k) && self.labels@[k].name@ == name@,
                None => forall|k: i64| #[trigger]
                    self.labels@.contains_key(k) ==> self.labels@[k].name@ != name@,
            },
    {
        match target_chat {
            GramChat::ChatId(id) => Some(id),
            GramChat::Label(name) => {
                let ghost all = vstd::std_specs::hash::spec_hash_map_iter(&self.labels).remaining();
                #[verifier::loop_isolation(false)]
                for entry in it: self.labels.iter()
                    invariant
                        it.seq() == all,
                        forall|j: int|
                            0 <= j < it.index() ==> (#[trigger] it.seq()[j]).1.name@ != name@,
                {
                    let (k, v) = entry;
                    if v.name == name {
                        return Some(*k);
                    }
                }
                proof {
                    assert forall|k: i64| #[trigger]
                        self.labels@.contains_key(k) implies self.labels@[k].name@ != name@ by {
                        let j = choose|j: int| 0 <= j < all.len() && all[j] == (&k, &self.labels@[k]);
                    }
                }
                None
            },
        }
    }
}


/// Reading a label back: after `label(chat_id, name)`, the chat's label is
/// `name` and every other chat keeps the label it had.
pub proof fn lemma_label_then_get(labels: Map<i64, GramLabel>, chat_id: i64, name: String, other: i64)
    requires
        other != chat_id,
    ensures
        labels.insert(chat_id, GramLabel { name }).contains_key(chat_id),
        labels.insert(chat_id, GramLabel { name })[chat_id].name@ == name@,
        labels.insert(chat_id, GramLabel { name }).contains_key(other) == labels.contains_key(other),
        labels.contains_key(other) ==> labels.insert(chat_id, GramLabel { name })[other] == labels[other],
{
}

/// A label that was just attached resolves: some chat carries it, so
/// `resolve_user` cannot come back empty for it.
pub proof fn lemma_labelled_chat_resolves(labels: Map<i64, GramLabel>, chat_id: i64, name: String)
    ensures
        exists|k: i64| #[trigger]
            labels.insert(chat_id, GramLabel { name }).contains_key(k) && labels.insert(
                chat_id,
                GramLabel { name },
            )[k].name@ == name@,
{
    let m = labels.insert(chat_id, GramLabel { name });
    assert(m.contains_key(chat_id) && m[chat_id].name@ == name@);
}

/// A custom pattern without placeholders names every user and every chat by
/// the pattern itself.
pub proof fn lemma_custom_without_placeholders(fmt: String, u: User, c: Chat, labels: Map<i64, GramLabel>)
    requires
        forall|i: int| !#[trigger] crate::text::occurs_at(fmt@, i, "{{first_name}}"@),
        forall|i: int| !#[trigger] crate::text::occurs_at(fmt@, i, "{{last_name}}"@),
        forall|i: int| !#[trigger] crate::text::occurs_at(fmt@, i, "{{user_id}}"@),
        forall|i: int| !#[trigger] crate::text::occurs_at(fmt@, i, "{{title}}"@),
        forall|i: int| !#[trigger] crate::text::occurs_at(fmt@, i, "{{label}}"@),
        forall|i: int| !#[trigger] crate::text::occurs_at(fmt@, i, "{{chat_id}}"@),
    ensures
        user_sender_text(UserSenderMode::Custom(fmt), u) == fmt@,
        chat_sender_text(ChatSenderMode::Custom(fmt), labels, c) == fmt@,
{
    crate::text::lemma_replace_absent(fmt@, "{{first_name}}"@, u.first_name@);
    crate::text::lemma_replace_absent(fmt@, "{{last_name}}"@, u.last_name@);
    crate::text::lemma_replace_absent(fmt@, "{{user_id}}"@, decimal(u.id as int));
    crate::text::lemma_replace_absent(fmt@, "{{title}}"@, c.title@);
    crate::text::lemma_replace_absent(fmt@, "{{label}}"@, label_or_title(labels, c));
    crate::text::lemma_replace_absent(fmt@, "{{chat_id}}"@, decimal(c.id as int));
}

/// How the plain modes name a sender: first and last name is the first
/// name, a space and the last name; the label mode names a labelled chat by
/// its label and any other chat by its title; the id modes write the id in
/// decimal.
pub proof fn lemma_sender_modes_name_the_sender(u: User, c: Chat, labels: Map<i64, GramLabel>)
    ensures
        user_sender_text(UserSenderMode::FirstName, u) == u.first_name@,
        user_sender_text(UserSenderMode::LastName, u) == u.last_name@,
        user_sender_text(UserSenderMode::FirstAndLastName, u) == user_sender_text(
            UserSenderMode::FirstName,
            u,
        ) + seq![' '] + user_sender_text(UserSenderMode::LastName, u),
        user_sender_text(UserSenderMode::UserId, u) == decimal(u.id as int),
        chat_sender_text(ChatSenderMode::Title, labels, c) == c.title@,
        chat_sender_text(ChatSenderMode::ChatId, labels, c) == decimal(c.id as int),
        labels.contains_key(c.id) ==> chat_sender_text(ChatSenderMode::Label, labels, c)
            == labels[c.id].name@,
        !labels.contains_key(c.id) ==> chat_sender_text(ChatSenderMode::Label, labels, c)
            == chat_sender_text(ChatSenderMode::Title, labels, c),
{
}

} // verus!
