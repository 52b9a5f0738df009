//! Chat references, chat lists and message contents as the user types them.
use crate::text::{chars_of, circumfix_inner, integer_in_range, occurs_at, parse_i64, starts_with, str_eq, string_of, strip_circumfix};
use vstd::prelude::*;
use vstd::string::*;

verus! {

/// A chat as the user refers to it: by gram label or by telegram chat id.
#[derive(Clone, PartialEq, Debug)]
pub enum GramChat {
    Label(String),
    ChatId(i64),
}

/// How a typed chat reference is read: a number that fits in an `i64` is a
/// chat id, anything else is a label.
pub open spec fn gram_chat_of(s: Seq<char>) -> GramChatView {
    match integer_in_range(s, i64::MIN as int, i64::MAX as int) {
        Some(v) => GramChatView::ChatId(v as i64),
        None => GramChatView::Label(s),
    }
}

/// A chat reference with its label as plain characters.
pub enum GramChatView {
    Label(Seq<char>),
    ChatId(i64),
}

impl GramChat {
    /// This reference with its label as plain characters.
    pub open spec fn view_of(self) -> GramChatView {
        match self {
            GramChat::Label(s) => GramChatView::Label(s@),
            GramChat::ChatId(id) => GramChatView::ChatId(id),
        }
    }

    /// Reads a chat reference; it never fails.
    pub fn parse(s: &str) -> (res: Result<GramChat, String>)
        ensures
            res matches Ok(c) && c.view_of() == gram_chat_of(s@),
    {
        match parse_i64(s) {
            Some(id) => Ok(GramChat::ChatId(id)),
            None => Ok(GramChat::Label(s.to_string())),
        }
    }
}

impl std::str::FromStr for GramChat {
    type Err = String;

    fn from_str(s: &str) -> (res: Result<Self, Self::Err>)
        ensures
            res matches Ok(c) && c.view_of() == gram_chat_of(s@),
    {
        GramChat::parse(s)
    }
}

/// A list of chats: the main list, the archive, or a chat folder.
#[derive(Clone, Copy, PartialEq, Eq, Structural, Debug)]
pub enum ChatList {
    Main,
    Archive,
    Folder { chat_folder_id: i32 },
}

/// The chat list that `s` names: `m`, `main` or `ChatList::Main` for the main
/// list; `a`, `archive` or `ChatList::Archive` for the archive; `folder/N`,
/// `f/N` or `ChatList::Folder/N` for folder `N`, where `N` (all that follows
/// the first `/`) is an `i32`; nothing else.
pub open spec fn chat_list_of(s: Seq<char>) -> Option<ChatList> {
    if s == "m"@ || s == "main"@ || s == "ChatList::Main"@ {
        Some(ChatList::Main)
    } else if s == "a"@ || s == "archive"@ || s == "ChatList::Archive"@ {
        Some(ChatList::Archive)
    } else {
        let p = if occurs_at(s, 0, "folder/"@) {
            "folder/"@
        } else if occurs_at(s, 0, "f/"@) {
            "f/"@
        } else {
            "ChatList::Folder/"@
        };
        if occurs_at(s, 0, p) {
            match integer_in_range(s.skip(p.len() as int), i32::MIN as int, i32::MAX as int) {
                Some(id) => Some(ChatList::Folder { chat_folder_id: id as i32 }),
                None => None,
            }
        } else {
            None
        }
    }
}

/// Reads `s` as an `i32`, as `str::parse::<i32>` does.
pub fn parse_i32(s: &str) -> (res: Option<i32>)
    ensures
        res matches Some(v) ==> integer_in_range(s@, i32::MIN as int, i32::MAX as int) == Some(
            v as int,
        ),
        res is None ==> integer_in_range(s@, i32::MIN as int, i32::MAX as int) is None,
{
    match parse_i64(s) {
        Some(v) => if -2147483648 <= v && v <= 2147483647 {
            Some(v as i32)
        } else {
            None
        },
        None => None,
    }
}

/// Reads a chat list name; the error is `"invalid chat list"`.
pub fn chat_list(s: &str) -> (res: Result<ChatList, String>)
    ensures
        chat_list_of(s@) matches Some(l) ==> res == Ok::<ChatList, String>(l),
        chat_list_of(s@) is None ==> (res matches Err(e) && e@ == "invalid chat list"@),
{
    if str_eq(s, "m") || str_eq(s, "main") || str_eq(s, "ChatList::Main") {
        return Ok(ChatList::Main);
    } else if str_eq(s, "a") || str_eq(s, "archive") || str_eq(s, "ChatList::Archive") {
        return Ok(ChatList::Archive);
    } else {
        let prefix = if starts_with(s, "folder/") {
            "folder/"
        } else if starts_with(s, "f/") {
            "f/"
        } else {
            "ChatList::Folder/"
        };
        if starts_with(s, prefix) {
            let v = chars_of(s);
            let p = chars_of(prefix);
            let folder_id = string_of(&v, p.len(), v.len());
            assert(folder_id@ =~= s@.skip(prefix@.len() as int));
            if let Some(chat_folder_id) = parse_i32(folder_id.as_str()) {
                return Ok(ChatList::Folder { chat_folder_id });
            }
        }
    }
    Err("invalid chat list".to_string())
}

/// The content of a message to send: a text, or a document at a path.
#[derive(Clone, PartialEq, Debug)]
pub enum GramMessageContent {
    Text(String),
    Document(String),
}

/// A message content with its text or path as plain characters.
pub enum ContentView {
    Text(Seq<char>),
    Document(Seq<char>),
}

impl GramMessageContent {
    /// This content with its text or path as plain characters.
    pub open spec fn view_of(self) -> ContentView {
        match self {
            GramMessageContent::Text(t) => ContentView::Text(t@),
            GramMessageContent::Document(p) => ContentView::Document(p@),
        }
    }
}

/// A text message.
pub fn text_content(s: &str) -> (res: GramMessageContent)
    ensures
        res.view_of() == ContentView::Text(s@),
{
    GramMessageContent::Text(s.to_string())
}

/// A document message for the file at `path`.
pub fn doc_content(path: &str) -> (res: GramMessageContent)
    ensures
        res.view_of() == ContentView::Document(path@),
{
    GramMessageContent::Document(path.to_string())
}

/// What a typed message is sent as: text in double quotes that names an
/// existing file is sent as that text without the quotes; otherwise a text
/// that names an existing file is sent as that document; anything else is
/// sent as text.
pub open spec fn content_of(
    s: Seq<char>,
    quoted_file_exists: bool,
    file_path: Option<Seq<char>>,
) -> ContentView {
    match circumfix_inner(s, '"', '"') {
        Some(inner) if quoted_file_exists => ContentView::Text(inner),
        _ => match file_path {
            Some(p) => ContentView::Document(p),
            None => ContentView::Text(s),
        },
    }
}

/// Decides how the typed message `s` is sent. `quoted_file_exists` tells
/// whether the text between the double quotes of `s` names an existing file
/// (it is read only when `s` is quoted); `file_path` is the absolute path of
/// the file that `s` names, when one exists. It never fails.
pub fn message_content(s: &str, quoted_file_exists: bool, file_path: Option<String>) -> (res: Result<
    GramMessageContent,
    String,
>)
    ensures
        res matches Ok(c) && c.view_of() == content_of(
            s@,
            quoted_file_exists,
            match file_path {
                Some(p) => Some(p@),
                None => None,
            },
        ),
{
    if let Some(txt) = strip_circumfix(s, '"', '"') {
        if quoted_file_exists {
            return Ok(text_content(txt.as_str()));
        }
    }
    match file_path {
        Some(p) => Ok(doc_content(p.as_str())),
        None => Ok(text_content(s)),
    }
}


/// A chat id written out in decimal is read back as that chat id.
pub proof fn lemma_chat_id_roundtrip(id: i64)
    ensures
        gram_chat_of(crate::text::decimal(id as int)) == GramChatView::ChatId(id),
{
    crate::text::lemma_decimal_roundtrip(id as int);
}

} // verus!
