//! The cells and rows of the tables that gram prints, and the texts of its
//! notifications.
use crate::chat::ChatList;
use crate::conf::{Chat, GramConf, GramLabel, User, chat_sender_text, user_sender_text};
use crate::text::{decimal, ellipsis, i64_to_string, shorten, shortened};
use std::collections::HashMap;
use vstd::prelude::*;
use vstd::string::*;

verus! {

broadcast use vstd::std_specs::hash::group_hash_axioms;

/// Who sent a message: a user or a chat.
#[derive(Clone, Copy, PartialEq, Eq, Structural, Debug)]
pub enum MessageSender {
    User { user_id: i64 },
    Chat { chat_id: i64 },
}

/// What gram shows of a message's content.
pub enum ContentPreview {
    Text { text: String },
    Photo { caption: String },
    Document { file_name: String },
    Sticker { emoji: String },
    Video { file_name: String },
    Audio,
    Call { is_video: bool, duration: i32 },
    /// any other kind of content
    Other,
}

/// What gram shows of a message.
pub struct MessageInfo {
    pub id: i64,
    pub sender_id: MessageSender,
    pub content: ContentPreview,
    pub is_outgoing: bool,
    /// whether the message is still being sent or failed to send
    pub has_sending_state: bool,
    /// the `{:?}` text of the content, which notifications show for kinds
    /// of content they do not summarize
    pub content_debug: String,
}

/// The kind of a chat, with the id of what it wraps.
#[derive(Clone, Copy, PartialEq, Eq, Structural, Debug)]
pub enum ChatType {
    Private { user_id: i64 },
    BasicGroup { basic_group_id: i64 },
    Supergroup { supergroup_id: i64 },
    Secret { user_id: i64 },
}

/// The text of the sender cell: the sender's label (`me` for the signed-in
/// user) when it has one, else `user:ID` or `chat:ID`, shortened.
pub open spec fn sender_cell(labels: Map<i64, GramLabel>, me: Option<i64>, sender: MessageSender, max: i32) -> Seq<char> {
    let (x, tag) = match sender {
        MessageSender::User { user_id } => (user_id, "user:"@),
        MessageSender::Chat { chat_id } => (chat_id, "chat:"@),
    };
    let name = if labels.contains_key(x) {
        if me == Some(x) {
            "me"@
        } else {
            labels[x].name@
        }
    } else {
        shortened(max, tag + decimal(x as int))
    };
    shortened(max, name)
}

/// A sender with a label is shown by that label (`me` for the signed-in
/// user), shortened, whether it is a user or a chat; one without is shown
/// as `user:ID` or `chat:ID`.
pub proof fn lemma_sender_cell_shows_label(labels: Map<i64, GramLabel>, me: Option<i64>, x: i64, max: i32)
    ensures
        labels.contains_key(x) ==> sender_cell(labels, me, MessageSender::Chat { chat_id: x }, max)
            == sender_cell(labels, me, MessageSender::User { user_id: x }, max),
        labels.contains_key(x) ==> sender_cell(labels, me, MessageSender::Chat { chat_id: x }, max)
            == shortened(
            max,
            if me == Some(x) {
                "me"@
            } else {
                labels[x].name@
            },
        ),
        !labels.contains_key(x) ==> sender_cell(labels, me, MessageSender::User { user_id: x }, max)
            == shortened(max, shortened(max, "user:"@ + decimal(x as int))),
        !labels.contains_key(x) ==> sender_cell(labels, me, MessageSender::Chat { chat_id: x }, max)
            == shortened(max, shortened(max, "chat:"@ + decimal(x as int))),
{
}

/// The text of the content cell of a message table.
pub open spec fn content_cell(c: ContentPreview, max: i32) -> Seq<char> {
    match c {
        ContentPreview::Text { text } => shortened(max, text@),
        ContentPreview::Photo { .. } => "[photo]"@,
        ContentPreview::Document { file_name } => "[doc: "@ + file_name@ + "]"@,
        ContentPreview::Sticker { emoji } => "[sticker: "@ + emoji@ + "]"@,
        ContentPreview::Video { .. } => "[video]"@,
        ContentPreview::Audio => "[audio]"@,
        ContentPreview::Call { is_video, duration } => "["@ + decimal(duration as int) + "sec "@ + (
        if is_video {
            "video "@
        } else {
            ""@
        }) + "call]"@,
        ContentPreview::Other => "[other]"@,
    }
}

/// The delivery mark of a message: none for incoming messages, a cross
/// while it is being sent or failed, two ticks once read, one tick before.
pub open spec fn status_cell(m: MessageInfo, read_outbox: i64) -> Seq<char> {
    if !m.is_outgoing {
        Seq::empty()
    } else if m.has_sending_state {
        seq!['\u{2717}']
    } else if read_outbox >= m.id {
        seq!['\u{2713}', '\u{2713}']
    } else {
        seq!['\u{2713}']
    }
}

/// The delivery mark: incoming messages have none; an outgoing message
/// shows a cross while it is being sent or failed, else two ticks once the
/// chat has read up to it and one tick before; a later read never takes a
/// tick away.
pub proof fn lemma_status_marks(m: MessageInfo, read: i64, later: i64)
    requires
        read <= later,
    ensures
        !m.is_outgoing ==> status_cell(m, read).len() == 0,
        m.is_outgoing && m.has_sending_state ==> status_cell(m, read) == seq!['\u{2717}'],
        m.is_outgoing && !m.has_sending_state ==> status_cell(m, read) == (if read >= m.id {
            seq!['\u{2713}', '\u{2713}']
        } else {
            seq!['\u{2713}']
        }),
        status_cell(m, read).len() <= status_cell(m, later).len(),
{
}

/// The content cell of a text is the text, shortened; a document shows its
/// file name and a sticker its emoji, whatever the limit.
pub proof fn lemma_content_cell_shows_content(text: String, file_name: String, emoji: String, max: i32)
    ensures
        content_cell(ContentPreview::Text { text }, max) == shortened(max, text@),
        content_cell(ContentPreview::Document { file_name }, max) == "[doc: "@ + file_name@ + "]"@,
        content_cell(ContentPreview::Sticker { emoji }, max) == "[sticker: "@ + emoji@ + "]"@,
{
}

/// The kind column and inner id of a chat.
pub open spec fn chat_kind_of(t: ChatType) -> (Seq<char>, i64) {
    match t {
        ChatType::Private { user_id } => ("private"@, user_id),
        ChatType::BasicGroup { basic_group_id } => ("bagroup"@, basic_group_id),
        ChatType::Supergroup { supergroup_id } => ("sugroup"@, supergroup_id),
        ChatType::Secret { user_id } => ("secretc"@, user_id),
    }
}

/// The views of the cells of a row.
pub open spec fn row_view(r: Vec<String>) -> Seq<Seq<char>> {
    r@.map_values(|c: String| c@)
}

/// The row of a chat in the chat list: its position, id, kind, inner id
/// (only in dev mode), shortened title and shortened label.
pub open spec fn chat_row(i: int, id: i64, kind: Seq<char>, iid: i64, title: Seq<char>, label: Seq<char>, max: i32, dev: bool) -> Seq<Seq<char>> {
    if dev {
        seq![decimal(i), decimal(id as int), kind, decimal(iid as int), shortened(max, title), shortened(max, label)]
    } else {
        seq![decimal(i), decimal(id as int), kind, shortened(max, title), shortened(max, label)]
    }
}

fn usize_to_string(i: usize) -> (res: String)
    requires
        i <= i64::MAX,
    ensures
        res@ == decimal(i as int),
{
    i64_to_string(i as i64)
}

fn cat(a: &str, b: &str) -> (res: String)
    ensures
        res@ == a@ + b@,
{
    let mut s = a.to_string();
    s.append(b);
    s
}

/// The sender cell of a message table.
pub fn sender_text(labels: &HashMap<i64, GramLabel>, me: Option<i64>, sender: MessageSender, max_len: i32) -> (res: String)
    ensures
        res@ == sender_cell(labels@, me, sender, max_len),
{
    let (x, tag) = match sender {
        MessageSender::User { user_id } => (user_id, "user:"),
        MessageSender::Chat { chat_id } => (chat_id, "chat:"),
    };
    let id = cat(tag, i64_to_string(x).as_str());
    let name = match labels.get(&x) {
        Some(lbl) => {
            if me == Some(x) {
                "me".to_string()
            } else {
                lbl.name.clone()
            }
        },
        None => shorten(max_len, id.as_str()),
    };
    shorten(max_len, name.as_str())
}

/// The content cell of a message table.
pub fn content_text(content: &ContentPreview, max_len: i32) -> (res: String)
    ensures
        res@ == content_cell(*content, max_len),
{
    match content {
        ContentPreview::Text { text } => shorten(max_len, text.as_str()),
        ContentPreview::Photo { .. } => "[photo]".to_string(),
        ContentPreview::Document { file_name } => {
            let s = cat("[doc: ", file_name.as_str());
            cat(s.as_str(), "]")
        },
        ContentPreview::Sticker { emoji } => {
            let s = cat("[sticker: ", emoji.as_str());
            cat(s.as_str(), "]")
        },
        ContentPreview::Video { .. } => "[video]".to_string(),
        ContentPreview::Audio => "[audio]".to_string(),
        ContentPreview::Call { is_video, duration } => {
            let s = cat("[", i64_to_string(*duration as i64).as_str());
            let s = cat(s.as_str(), "sec ");
            let s = cat(s.as_str(), if *is_video { "video " } else { "" });
            cat(s.as_str(), "call]")
        },
        ContentPreview::Other => "[other]".to_string(),
    }
}

/// The delivery mark of a message, given the last outgoing message of its
/// chat that was read.
pub fn status_text(m: &MessageInfo, read_outbox: i64) -> (res: String)
    ensures
        res@ == status_cell(*m, read_outbox),
{
    let mut s = String::new();
    if !m.is_outgoing {
    } else if m.has_sending_state {
        crate::text::push_char(&mut s, '\u{2717}');
    } else if read_outbox >= m.id {
        crate::text::push_char(&mut s, '\u{2713}');
        crate::text::push_char(&mut s, '\u{2713}');
    } else {
        crate::text::push_char(&mut s, '\u{2713}');
    }
    assert(s@ =~= status_cell(*m, read_outbox));
    s
}

/// The kind column and inner id of a chat.
pub fn chat_kind(t: ChatType) -> (res: (&'static str, i64))
    ensures
        (res.0@, res.1) == chat_kind_of(t),
{
    match t {
        ChatType::Private { user_id: iid } => ("private", iid),
        ChatType::BasicGroup { basic_group_id: iid } => ("bagroup", iid),
        ChatType::Supergroup { supergroup_id: iid } => ("sugroup", iid),
        ChatType::Secret { user_id: iid } => ("secretc", iid),
    }
}

/// The header row of the chat list.
pub fn chats_header(dev: bool) -> (res: Vec<String>)
    ensures
        dev ==> row_view(res) == seq!["#"@, "Id"@, "Type"@, "Inner ID"@, "Title"@, "Label?"@],
        !dev ==> row_view(res) == seq!["#"@, "Id"@, "Type"@, "Title"@, "Label?"@],
{
    let mut r: Vec<String> = Vec::new();
    r.push("#".to_string());
    r.push("Id".to_string());
    r.push("Type".to_string());
    if dev {
        r.push("Inner ID".to_string());
    }
    r.push("Title".to_string());
    r.push("Label?".to_string());
    assert(row_view(r) =~= (if dev {
        seq!["#"@, "Id"@, "Type"@, "Inner ID"@, "Title"@, "Label?"@]
    } else {
        seq!["#"@, "Id"@, "Type"@, "Title"@, "Label?"@]
    }));
    r
}

/// Appends the row of a chat to the chat list table `b`.
pub fn push_chat(
    b: &mut Vec<Vec<String>>,
    i: usize,
    id: i64,
    kind: &str,
    iid: i64,
    title: String,
    label: String,
    max_len: i32,
    dev: bool,
)
    requires
        i <= i64::MAX,
    ensures
        final(b)@.len() == old(b)@.len() + 1,
        final(b)@.take(old(b)@.len() as int) == old(b)@,
        row_view(final(b)@.last()) == chat_row(i as int, id, kind@, iid, title@, label@, max_len, dev),
{
    let short_title = shorten(max_len, title.as_str());
    let short_label = shorten(max_len, label.as_str());
    let mut r: Vec<String> = Vec::new();
    r.push(usize_to_string(i));
    r.push(i64_to_string(id));
    r.push(kind.to_string());
    if dev {
        r.push(i64_to_string(iid));
    }
    r.push(short_title);
    r.push(short_label);
    assert(row_view(r) =~= chat_row(i as int, id, kind@, iid, title@, label@, max_len, dev));
    b.push(r);
    assert(final(b)@.take(old(b)@.len() as int) =~= old(b)@);
}

/// The label name of `chat_id`, or an empty text.
pub fn label_or_empty(labels: &HashMap<i64, GramLabel>, chat_id: i64) -> (res: String)
    ensures
        labels@.contains_key(chat_id) ==> res@ == labels@[chat_id].name@,
        !labels@.contains_key(chat_id) ==> res@ == Seq::<char>::empty(),
{
    match labels.get(&chat_id) {
        Some(l) => l.name.clone(),
        None => String::new(),
    }
}

/// The row of a chat folder: its id and shortened name.
pub fn folder_row(id: i32, name: &str, max_len: i32) -> (res: Vec<String>)
    ensures
        row_view(res) == seq![decimal(id as int), shortened(max_len, name@)],
{
    let mut r: Vec<String> = Vec::new();
    r.push(i64_to_string(id as i64));
    r.push(shorten(max_len, name));
    assert(row_view(r) =~= seq![decimal(id as int), shortened(max_len, name@)]);
    r
}

/// The width left for the content column: the terminal width (120 when
/// unknown, at most 120) less the 48 columns of the other columns and the
/// borders, but at least 20.
pub open spec fn content_width_of(term_width: Option<usize>) -> int {
    let w = match term_width {
        Some(w) => if w <= 120 {
            w as int
        } else {
            120
        },
        None => 120,
    };
    if w - 48 >= 20 {
        w - 48
    } else {
        20
    }
}

/// The width of the content column for a terminal of `term_width` columns.
pub fn content_width(term_width: Option<usize>) -> (res: usize)
    ensures
        res == content_width_of(term_width),
        20 <= res <= 72,
{
    let col_id: usize = 12;
    let col_sender: usize = 15;
    let col_date: usize = 8;
    let col_borders: usize = 13;
    let fixed: usize = col_id + col_sender + col_date + col_borders;
    let w = match term_width {
        Some(w) => w,
        None => 120,
    };
    let w = if w <= 120 { w } else { 120 };
    let c = if w >= fixed { w - fixed } else { 0 };
    if c >= 20 { c } else { 20 }
}

/// The body of a notification about a message: a summary of its content,
/// shortened.
pub open spec fn notify_body(c: ContentPreview, debug: Seq<char>, max: i32) -> Seq<char> {
    match c {
        ContentPreview::Text { text } => shortened(max, text@),
        ContentPreview::Document { file_name } => shortened(max, file_name@),
        ContentPreview::Video { file_name } => shortened(max, file_name@),
        ContentPreview::Photo { caption } => shortened(max, "<video> "@ + caption@),
        _ => shortened(max, "unsupported message type "@ + debug),
    }
}

/// A notification about a document or a video shows its file name, and one
/// about a text shows the text, shortened to the limit; what the content's
/// `{:?}` text is plays no part in them.
pub proof fn lemma_notification_body_shows_content(file_name: String, text: String, debug: Seq<char>, max: i32)
    ensures
        notify_body(ContentPreview::Document { file_name }, debug, max) == shortened(max, file_name@),
        notify_body(ContentPreview::Video { file_name }, debug, max) == shortened(max, file_name@),
        notify_body(ContentPreview::Text { text }, debug, max) == shortened(max, text@),
        max < 0 ==> notify_body(ContentPreview::Document { file_name }, debug, max) == file_name@,
{
}

/// Who sent a message, as looked up for a notification.
pub enum SenderDetails {
    User(User),
    Chat(Chat),
}

/// The title of a notification: the sender named as the settings say,
/// shortened.
pub open spec fn notify_title(conf: GramConf, sender: SenderDetails) -> Seq<char> {
    match sender {
        SenderDetails::User(u) => shortened(
            conf.settings.max_len_before_shortening,
            user_sender_text(conf.settings.user_sender_mode, u),
        ),
        SenderDetails::Chat(c) => shortened(
            conf.settings.max_len_before_shortening,
            chat_sender_text(conf.settings.chat_sender_mode, conf.labels@, c),
        ),
    }
}

/// The title and body of the notification about `message` from `sender`;
/// `None` for messages the user sent.
pub fn notification(conf: &GramConf, message: &MessageInfo, sender: SenderDetails) -> (res: Option<(String, String)>)
    ensures
        message.is_outgoing ==> res is None,
        !message.is_outgoing ==> (res matches Some((t, b)) && t@ == notify_title(*conf, sender)
            && b@ == notify_body(message.content, message.content_debug@,
            conf.settings.max_len_before_shortening)),
{
    if message.is_outgoing {
        return None;
    }
    let max_len = conf.settings.max_len_before_shortening;
    let title = match sender {
        SenderDetails::User(u) => shorten(max_len, conf.settings.user_sender_mode.with_user(u).as_str()),
        SenderDetails::Chat(c) => shorten(max_len, conf.settings.chat_sender_mode.with_chat(conf, c).as_str()),
    };
    let body = match &message.content {
        ContentPreview::Text { text } => shorten(max_len, text.as_str()),
        ContentPreview::Document { file_name } => shorten(max_len, file_name.as_str()),
        ContentPreview::Video { file_name } => shorten(max_len, file_name.as_str()),
        ContentPreview::Photo { caption } => shorten(max_len, cat("<video> ", caption.as_str()).as_str()),
        _ => shorten(max_len, cat("unsupported message type ", message.content_debug.as_str()).as_str()),
    };
    Some((title, body))
}


/// A message as the message table shows it: the message, the last outgoing
/// message of its chat that was read, and its time of day as text.
pub struct GramMessage {
    pub msg: MessageInfo,
    pub last_read_outbox_message_id: i64,
    pub date: String,
}

/// The row of a message: id, sender, time, content and delivery mark.
pub open spec fn message_row(m: GramMessage, labels: Map<i64, GramLabel>, me: Option<i64>, max: i32) -> Seq<Seq<char>> {
    seq![
        decimal(m.msg.id as int),
        sender_cell(labels, me, m.msg.sender_id, max),
        m.date@,
        content_cell(m.msg.content, max),
        status_cell(m.msg, m.last_read_outbox_message_id),
    ]
}

/// The header row of a message table.
pub open spec fn message_header() -> Seq<Seq<char>> {
    seq!["ID"@, "Sender"@, "Date"@, "Content"@, "Status"@]
}

/// The table of `messages`: the header, then the messages from the last to
/// the first (the oldest first, as history comes newest first).
pub fn message_table(messages: &Vec<GramMessage>, labels: &HashMap<i64, GramLabel>, me: Option<i64>, max_len: i32) -> (res: Vec<Vec<String>>)
    ensures
        res@.len() == messages@.len() + 1,
        row_view(res@[0]) == message_header(),
        forall|k: int|
            0 <= k < messages@.len() ==> row_view(#[trigger] res@[k + 1]) == message_row(
                messages@[messages@.len() - 1 - k],
                labels@,
                me,
                max_len,
            ),
{
    let mut res: Vec<Vec<String>> = Vec::new();
    let mut h: Vec<String> = Vec::new();
    h.push("ID".to_string());
    h.push("Sender".to_string());
    h.push("Date".to_string());
    h.push("Content".to_string());
    h.push("Status".to_string());
    assert(row_view(h) =~= message_header());
    res.push(h);
    let n = messages.len();
    let mut k: usize = 0;
    while k < n
        invariant
            n == messages@.len(),
            k <= n,
            res@.len() == k + 1,
            row_view(res@[0]) == message_header(),
            forall|t: int|
                0 <= t < k ==> row_view(#[trigger] res@[t + 1]) == message_row(
                    messages@[n - 1 - t],
                    labels@,
                    me,
                    max_len,
                ),
        decreases n - k,
    {
        let m = &messages[n - 1 - k];
        let mut r: Vec<String> = Vec::new();
        r.push(i64_to_string(m.msg.id));
        r.push(sender_text(labels, me, m.msg.sender_id, max_len));
        r.push(m.date.clone());
        r.push(content_text(&m.msg.content, max_len));
        r.push(status_text(&m.msg, m.last_read_outbox_message_id));
        assert(row_view(r) =~= message_row(*m, labels@, me, max_len));
        let ghost prev = res@;
        res.push(r);
        assert forall|t: int| 0 <= t < k + 1 implies row_view(#[trigger] res@[t + 1]) == message_row(
            messages@[n - 1 - t],
            labels@,
            me,
            max_len,
        ) by {
            if t < k {
                assert(res@[t + 1] == prev[t + 1]);
            }
        }
        k = k + 1;
    }
    res
}

} // verus!
