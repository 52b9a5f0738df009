use gram::chat::{chat_list, doc_content, message_content, parse_i32, text_content, ChatList, GramChat, GramMessageContent};

#[test]
fn chat_reference_parsing() {
    assert_eq!("123".parse::<GramChat>(), Ok(GramChat::ChatId(123)));
    assert_eq!("-1001234".parse::<GramChat>(), Ok(GramChat::ChatId(-1001234)));
    assert_eq!("bob".parse::<GramChat>(), Ok(GramChat::Label("bob".to_string())));
    assert_eq!("12ab".parse::<GramChat>(), Ok(GramChat::Label("12ab".to_string())));
    assert_eq!(
        "99999999999999999999".parse::<GramChat>(),
        Ok(GramChat::Label("99999999999999999999".to_string()))
    );
}

#[test]
fn chat_id_roundtrip() {
    for id in [0i64, 7, -100, i64::MIN, i64::MAX] {
        assert_eq!(GramChat::parse(&id.to_string()), Ok(GramChat::ChatId(id)));
    }
}

#[test]
fn chat_list_names() {
    for s in ["m", "main", "ChatList::Main"] {
        assert_eq!(chat_list(s), Ok(ChatList::Main));
    }
    for s in ["a", "archive", "ChatList::Archive"] {
        assert_eq!(chat_list(s), Ok(ChatList::Archive));
    }
    assert_eq!(chat_list("folder/3"), Ok(ChatList::Folder { chat_folder_id: 3 }));
    assert_eq!(chat_list("f/-2"), Ok(ChatList::Folder { chat_folder_id: -2 }));
    assert_eq!(chat_list("ChatList::Folder/12"), Ok(ChatList::Folder { chat_folder_id: 12 }));
}

#[test]
fn chat_list_errors() {
    for s in ["", "mains", "folder/", "f/x", "folder/3000000000", "folder//3", "x/3", "F/3"] {
        assert_eq!(chat_list(s), Err("invalid chat list".to_string()));
    }
}

#[test]
fn parse_i32_range() {
    assert_eq!(parse_i32("2147483647"), Some(i32::MAX));
    assert_eq!(parse_i32("-2147483648"), Some(i32::MIN));
    assert_eq!(parse_i32("2147483648"), None);
}

#[test]
fn contents() {
    assert_eq!(text_content("hi"), GramMessageContent::Text("hi".to_string()));
    assert_eq!(doc_content("/tmp/a"), GramMessageContent::Document("/tmp/a".to_string()));
}

#[test]
fn message_content_plain_text() {
    assert_eq!(message_content("hello", false, None), Ok(GramMessageContent::Text("hello".to_string())));
}

#[test]
fn message_content_existing_file_is_document() {
    assert_eq!(
        message_content("notes.txt", false, Some("/home/u/notes.txt".to_string())),
        Ok(GramMessageContent::Document("/home/u/notes.txt".to_string()))
    );
}

#[test]
fn message_content_quoted_file_is_text() {
    assert_eq!(
        message_content("\"notes.txt\"", true, None),
        Ok(GramMessageContent::Text("notes.txt".to_string()))
    );
}

#[test]
fn message_content_quoted_non_file_keeps_quotes() {
    assert_eq!(
        message_content("\"hello\"", false, None),
        Ok(GramMessageContent::Text("\"hello\"".to_string()))
    );
}
