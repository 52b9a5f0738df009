use gram::repl::{completion_context, input_complete, is_blank, is_whitespace, lines, matching_candidates, split_whitespace};

#[test]
fn blank_lines() {
    assert!(is_blank(""));
    assert!(is_blank("  \t\n"));
    assert!(is_blank("\u{3000}\u{a0}"));
    assert!(!is_blank(" x "));
}

#[test]
fn whitespace_matches_std() {
    for c in ['\t', '\n', '\u{b}', '\u{c}', '\r', ' ', '\u{85}', '\u{a0}', '\u{1680}', '\u{2000}', '\u{200a}', '\u{2028}', '\u{2029}', '\u{202f}', '\u{205f}', '\u{3000}', 'a', '\u{200b}', '\u{180e}', '_'] {
        assert_eq!(is_whitespace(c), c.is_whitespace(), "{:?}", c);
    }
}

#[test]
fn quote_balance() {
    assert!(input_complete("send bob hi"));
    assert!(input_complete("send bob \"hi there\""));
    assert!(!input_complete("send bob \"hi there"));
}

#[test]
fn words_like_std() {
    for s in ["", "  ", "send bob hello", "  read   bob\t20  ", "a\u{3000}b"] {
        let expected: Vec<String> = s.split_whitespace().map(|w| w.to_string()).collect();
        assert_eq!(split_whitespace(s), expected);
    }
}

#[test]
fn lines_like_std() {
    for s in ["", "a", "a\n", "a\nb", "a\r\nb\r\n", "a\r", "\n\n", "x\ry\n"] {
        let expected: Vec<String> = s.lines().map(|l| l.to_string()).collect();
        assert_eq!(lines(s), expected, "{:?}", s);
    }
}

#[test]
fn completion_contexts() {
    let (tokens, current, start) = completion_context("sett", 4);
    assert!(tokens.is_empty());
    assert_eq!(current, "sett");
    assert_eq!(start, 0);
    let (tokens, current, start) = completion_context("settings ", 9);
    assert_eq!(tokens, vec!["settings"]);
    assert_eq!(current, "");
    assert_eq!(start, 9);
    let (tokens, current, start) = completion_context("read bo", 7);
    assert_eq!(tokens, vec!["read"]);
    assert_eq!(current, "bo");
    assert_eq!(start, 5);
    let (_, current, start) = completion_context("ä", 2);
    assert_eq!(current, "ä");
    assert_eq!(start, 0);
}

#[test]
fn candidates_by_prefix() {
    let names: Vec<String> = ["send", "settings", "search", "read"].iter().map(|s| s.to_string()).collect();
    assert_eq!(matching_candidates(&names, "se"), vec!["send", "settings", "search"]);
    assert_eq!(matching_candidates(&names, ""), names);
    assert!(matching_candidates(&names, "x").is_empty());
}
