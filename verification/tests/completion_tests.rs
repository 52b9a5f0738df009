use gram::completion::{completion_names, CommandNode, CommandTree};

fn strings(v: &[&str]) -> Vec<String> {
    v.iter().map(|s| s.to_string()).collect()
}

fn node(name: &str, aliases: &[&str], children: Vec<usize>, words: &[&str]) -> CommandNode {
    CommandNode { name: name.to_string(), aliases: strings(aliases), children, words: strings(words) }
}

fn tree() -> CommandTree {
    CommandTree {
        nodes: vec![
            node("gram", &[], vec![1, 2, 3], &["--help", "-h"]),
            node("exit", &["quit"], vec![], &["--help"]),
            node("chats", &[], vec![], &["--help", "main", "archive"]),
            node("settings", &["set"], vec![4], &[]),
            node("show", &[], vec![], &["--all"]),
        ],
    }
}

#[test]
fn root_offers_subcommands_aliases_and_flags() {
    let t = tree();
    assert!(t.is_wf());
    assert_eq!(
        completion_names(&t, &Vec::new()),
        strings(&["exit", "quit", "chats", "settings", "set", "--help", "-h"])
    );
}

#[test]
fn walk_follows_names_and_aliases() {
    let t = tree();
    assert_eq!(completion_names(&t, &strings(&["chats"])), strings(&["--help", "main", "archive"]));
    assert_eq!(completion_names(&t, &strings(&["set"])), strings(&["show"]));
    assert_eq!(completion_names(&t, &strings(&["settings", "show"])), strings(&["--all"]));
    // a word that names no subcommand stops the walk
    assert_eq!(completion_names(&t, &strings(&["bogus", "chats"])), completion_names(&t, &Vec::new()));
    assert_eq!(completion_names(&t, &strings(&["chats", "10"])), strings(&["--help", "main", "archive"]));
}

#[test]
fn malformed_trees_are_detected() {
    let bad = CommandTree { nodes: vec![node("gram", &[], vec![3], &[])] };
    assert!(!bad.is_wf());
    assert!(!CommandTree { nodes: Vec::new() }.is_wf());
}
