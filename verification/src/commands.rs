//! The commands of gram and what each of them asks the front end to do.
use crate::chat::{ChatList, GramChat};
use crate::chat::gram_chat_of;
use crate::text::{join, joined, str_eq, string_views};
use vstd::prelude::*;
use vstd::string::*;

verus! {

/// A command, as typed on the command line or in the REPL.
pub enum Command {
    /// authenticate with telegram
    Login,
    /// deauthenticate from telegram
    Logout,
    /// print gram version
    Version,
    /// list chat folders
    Folders,
    /// clear repl - only works in repl mode
    Clear,
    /// send a message to a chat (automatically determines what type the message is)
    Send { target_chat: GramChat, message: Vec<String> },
    /// send a TEXT message to a chat (force text)
    Text { target_chat: GramChat, message: Vec<String> },
    /// send a DOCUMENT to a chat (force document)
    Doc { target_chat: GramChat, message: Vec<String> },
    /// fetch info of yourself (as the user)
    Me,
    /// fetch info of a chat
    Chat { chat: GramChat },
    /// write a personal note for a chat
    Note { chat: GramChat, note: String },
    /// delete a message in a chat
    Delete { target_chat: GramChat, target_message: i64 },
    /// edit a message in a chat
    Edit { target_chat: GramChat, target_message: i64, message: Vec<String> },
    /// reply to a message in a chat
    Reply { target_chat: GramChat, target_message: Option<i64>, message: Vec<String> },
    /// read recent messages of a chat
    Read { target_chat: GramChat, limit: i32 },
    /// get/set a label for a chat
    Label { chat_id: i64, label: Option<String> },
    /// list/get/set gram settings
    Settings { key: Option<String>, value: Option<String> },
    /// exit gram
    Exit,
    /// list chats
    Chats { limit: i32, chat_list: ChatList },
    /// show message toml
    Toml { target_chat: GramChat, target_message: i64 },
    /// show message ron
    Ron { target_chat: GramChat, target_message: i64 },
    /// show message json
    Json { target_chat: GramChat, target_message: i64 },
    /// forward a message from chat to chat
    Forward { target_chat: GramChat, target_message: i64, to: GramChat },
    /// forward a message from chat to chat WITHOUT leaving a trace of the message being forwarded
    Repost { target_chat: GramChat, target_message: i64, to: GramChat },
    /// pins a message
    Pin { target_chat: GramChat, target_message: i64 },
    /// unpins a message
    Unpin { target_chat: GramChat, target_message: i64 },
    /// searches for messages either globally or in a chat
    Search { q: Vec<String> },
    /// searches for messages globally
    Gsearch { q: Vec<String> },
    /// run the commands of script files
    Script(Vec<String>),
}

/// The formats in which a message can be shown.
#[derive(Clone, Copy, PartialEq, Eq, Structural, Debug)]
pub enum MessageFormat {
    Toml,
    Ron,
    Json,
}

/// What the front end does for a command.
pub enum Action {
    Login,
    Logout,
    /// print this line
    Print { text: String },
    /// report this error
    Fail { message: String },
    Exit,
    Chats { limit: i32, chat_list: ChatList },
    Folders,
    Read { target_chat: GramChat, limit: i32 },
    ListSettings,
    GetSetting { key: String },
    SetSetting { key: String, value: String },
    /// send `text`, as text or as the document it names
    Send { target_chat: GramChat, reply_to: Option<i64>, text: String },
    /// send `text` as text
    SendText { target_chat: GramChat, text: String },
    /// send the document at `path`, if it exists
    SendDoc { target_chat: GramChat, path: String },
    GetLabel { chat_id: i64 },
    SetLabel { chat_id: i64, name: String },
    /// run the commands in these script files, line by line
    RunScripts { files: Vec<String> },
    /// forward message `target_msg` of `target_chat` to `to`; with
    /// `forward` false it is sent again as a copy, without a forward trace
    Forward { target_chat: GramChat, target_msg: i64, to: GramChat, forward: bool },
    /// search for `q` in the messages of `chat`, or of all chats
    Search { chat: Option<GramChat>, q: String },
    Pin { target_chat: GramChat, target_message: i64 },
    Unpin { target_chat: GramChat, target_message: i64 },
    Delete { target_chat: GramChat, target_message: i64 },
    /// replace the content of a message with `text`, as text or as the
    /// document it names
    Edit { target_chat: GramChat, target_message: i64, text: String },
    /// print the info of the logged-in user
    Me,
    /// print the info of a chat
    ChatInfo { chat: GramChat },
    /// write `note` as the personal note of a chat
    Note { chat: GramChat, note: String },
    /// print a message in the given format
    ShowMessage { target_chat: GramChat, target_message: i64, format: MessageFormat },
    Nothing,
}

/// Whether a search query starts with `in <chat>`, and so searches that
/// chat alone.
pub open spec fn searches_in_chat(q: Seq<String>) -> bool {
    q.len() >= 2 && q[0]@ == "in"@
}

/// What a `search` with the words `q` asks for: with `in <chat>` first, the
/// rest of the words in that chat; else all the words in all chats.
pub open spec fn search_spec(q: Seq<String>, chat: Option<GramChat>, text: Seq<char>) -> bool {
    if searches_in_chat(q) {
        chat matches Some(c) && c.view_of() == gram_chat_of(q[1]@) && text == joined(
            string_views(q.skip(2)),
            " "@,
        )
    } else {
        chat is None && text == joined(string_views(q), " "@)
    }
}

fn plan_search(q: Vec<String>) -> (res: Action)
    ensures
        res matches Action::Search { chat, q: text } && search_spec(q@, chat, text@),
{
    if q.len() >= 2 && str_eq(q[0].as_str(), "in") {
        let chat = GramChat::parse(q[1].as_str()).unwrap();
        let mut rest = q;
        let ghost q0 = rest@;
        rest.remove(0);
        rest.remove(0);
        assert(rest@ =~= q0.skip(2));
        let text = join(&rest, " ");
        Action::Search { chat: Some(chat), q: text }
    } else {
        let text = join(&q, " ");
        Action::Search { chat: None, q: text }
    }
}

/// The words of a message, joined by single spaces.
pub open spec fn message_text(message: Vec<String>) -> Seq<char> {
    joined(string_views(message@), " "@)
}

/// What gram does for `cmd`. A settings command with a value but no key
/// cannot be typed and is left out. `clear` is done by the REPL itself
/// before a command is planned, so here it does nothing.
pub fn plan(cmd: Command) -> (res: Action)
    requires
        !(cmd matches Command::Settings { key: None, value: Some(_) }),
    ensures
        cmd is Login ==> res is Login,
        cmd is Logout ==> res is Logout,
        cmd is Version ==> (res matches Action::Print { text } && text@ == "gram v0.0.1"@),
        cmd is Exit ==> res is Exit,
        cmd is Folders ==> res is Folders,
        cmd matches Command::Chats { limit, chat_list } ==> if limit < 1 {
            res matches Action::Fail { message } && message@ == "chat limit must be positive."@
        } else {
            res == (Action::Chats { limit, chat_list })
        },
        cmd matches Command::Read { target_chat, limit } ==> if limit < 1 {
            res matches Action::Fail { message } && message@ == "message limit must be positive."@
        } else {
            res == (Action::Read { target_chat, limit })
        },
        cmd matches Command::Settings { key: None, value: None } ==> res is ListSettings,
        cmd matches Command::Settings { key: Some(k), value: None } ==> res == (Action::GetSetting {
            key: k,
        }),
        cmd matches Command::Settings { key: Some(k), value: Some(v) } ==> res == (
        Action::SetSetting { key: k, value: v }),
        cmd matches Command::Send { target_chat, message } ==> (res matches Action::Send {
            target_chat: t,
            reply_to: None,
            text,
        } && t == target_chat && text@ == message_text(message)),
        cmd matches Command::Reply { target_chat, target_message, message } ==> (
        res matches Action::Send { target_chat: t, reply_to, text } && t == target_chat && reply_to
            == target_message && text@ == message_text(message)),
        cmd matches Command::Text { target_chat, message } ==> (res matches Action::SendText {
            target_chat: t,
            text,
        } && t == target_chat && text@ == message_text(message)),
        cmd matches Command::Doc { target_chat, message } ==> (res matches Action::SendDoc {
            target_chat: t,
            path,
        } && t == target_chat && path@ == message_text(message)),
        cmd matches Command::Label { chat_id, label: None } ==> res == (Action::GetLabel {
            chat_id,
        }),
        cmd matches Command::Label { chat_id, label: Some(n) } ==> res == (Action::SetLabel {
            chat_id,
            name: n,
        }),
        cmd matches Command::Script(files) ==> res == (Action::RunScripts { files }),
        cmd matches Command::Forward { target_chat, target_message, to } ==> res == (
        Action::Forward { target_chat, target_msg: target_message, to, forward: true }),
        cmd matches Command::Repost { target_chat, target_message, to } ==> res == (
        Action::Forward { target_chat, target_msg: target_message, to, forward: false }),
        cmd matches Command::Search { q } ==> (res matches Action::Search { chat, q: text }
            && search_spec(q@, chat, text@)),
        cmd matches Command::Gsearch { q } ==> (res matches Action::Search { chat: None, q: text }
            && text@ == message_text(q)),
        cmd matches Command::Pin { target_chat, target_message } ==> res == (Action::Pin {
            target_chat,
            target_message,
        }),
        cmd matches Command::Unpin { target_chat, target_message } ==> res == (Action::Unpin {
            target_chat,
            target_message,
        }),
        cmd matches Command::Delete { target_chat, target_message } ==> res == (Action::Delete {
            target_chat,
            target_message,
        }),
        cmd matches Command::Edit { target_chat, target_message, message } ==> (
        res matches Action::Edit { target_chat: t, target_message: m, text } && t == target_chat
            && m == target_message && text@ == message_text(message)),
        cmd is Me ==> res is Me,
        cmd matches Command::Chat { chat } ==> res == (Action::ChatInfo { chat }),
        cmd matches Command::Note { chat, note } ==> res == (Action::Note { chat, note }),
        cmd matches Command::Toml { target_chat, target_message } ==> res == (
        Action::ShowMessage { target_chat, target_message, format: MessageFormat::Toml }),
        cmd matches Command::Ron { target_chat, target_message } ==> res == (
        Action::ShowMessage { target_chat, target_message, format: MessageFormat::Ron }),
        cmd matches Command::Json { target_chat, target_message } ==> res == (
        Action::ShowMessage { target_chat, target_message, format: MessageFormat::Json }),
        cmd is Clear ==> res is Nothing,
{
    match cmd {
        Command::Login => Action::Login,
        Command::Logout => Action::Logout,
        Command::Version => Action::Print { text: "gram v0.0.1".to_string() },
        Command::Exit => Action::Exit,
        Command::Chats { limit, chat_list } => {
            if limit < 1 {
                Action::Fail { message: "chat limit must be positive.".to_string() }
            } else {
                Action::Chats { limit, chat_list }
            }
        },
        Command::Folders => Action::Folders,
        Command::Read { target_chat, limit } => {
            if limit < 1 {
                Action::Fail { message: "message limit must be positive.".to_string() }
            } else {
                Action::Read { target_chat, limit }
            }
        },
        Command::Settings { key, value } => match (key, value) {
            (None, None) => Action::ListSettings,
            (Some(k), None) => Action::GetSetting { key: k },
            (Some(k), Some(v)) => Action::SetSetting { key: k, value: v },
            (None, Some(_)) => Action::Nothing,
        },
        Command::Send { target_chat, message } => {
            let text = join(&message, " ");
            Action::Send { target_chat, reply_to: None, text }
        },
        Command::Text { target_chat, message } => {
            let text = join(&message, " ");
            Action::SendText { target_chat, text }
        },
        Command::Doc { target_chat, message } => {
            let path = join(&message, " ");
            Action::SendDoc { target_chat, path }
        },
        Command::Reply { target_chat, target_message, message } => {
            let text = join(&message, " ");
            Action::Send { target_chat, reply_to: target_message, text }
        },
        Command::Label { chat_id, label } => match label {
            None => Action::GetLabel { chat_id },
            Some(name) => Action::SetLabel { chat_id, name },
        },
        Command::Script(files) => Action::RunScripts { files },
        Command::Forward { target_chat, target_message, to } => Action::Forward {
            target_chat,
            target_msg: target_message,
            to,
            forward: true,
        },
        Command::Repost { target_chat, target_message, to } => Action::Forward {
            target_chat,
            target_msg: target_message,
            to,
            forward: false,
        },
        Command::Search { q } => plan_search(q),
        Command::Gsearch { q } => {
            let text = join(&q, " ");
            Action::Search { chat: None, q: text }
        },
        Command::Pin { target_chat, target_message } => Action::Pin { target_chat, target_message },
        Command::Unpin { target_chat, target_message } => Action::Unpin {
            target_chat,
            target_message,
        },
        Command::Delete { target_chat, target_message } => Action::Delete {
            target_chat,
            target_message,
        },
        Command::Edit { target_chat, target_message, message } => {
            let text = join(&message, " ");
            Action::Edit { target_chat, target_message, text }
        },
        Command::Me => Action::Me,
        Command::Chat { chat } => Action::ChatInfo { chat },
        Command::Note { chat, note } => Action::Note { chat, note },
        Command::Toml { target_chat, target_message } => Action::ShowMessage {
            target_chat,
            target_message,
            format: MessageFormat::Toml,
        },
        Command::Ron { target_chat, target_message } => Action::ShowMessage {
            target_chat,
            target_message,
            format: MessageFormat::Ron,
        },
        Command::Json { target_chat, target_message } => Action::ShowMessage {
            target_chat,
            target_message,
            format: MessageFormat::Json,
        },
        Command::Clear => Action::Nothing,
    }
}

} // verus!
