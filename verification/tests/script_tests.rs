use gram::script::{check_scripts, script_commands, script_error};

fn strings(v: &[&str]) -> Vec<String> {
    v.iter().map(|s| s.to_string()).collect()
}

#[test]
fn scripts_run_only_when_all_exist() {
    let files = strings(&["a.gram", "b.gram", "c.gram"]);
    assert_eq!(check_scripts(&files, &vec![true, true, true]), Ok(()));
    assert_eq!(
        check_scripts(&files, &vec![true, false, false]),
        Err("script file b.gram doesnt exist".to_string())
    );
    assert_eq!(
        check_scripts(&files, &vec![false, true, false]),
        Err("script file a.gram doesnt exist".to_string())
    );
    assert_eq!(check_scripts(&Vec::new(), &Vec::new()), Ok(()));
}

#[test]
fn each_line_becomes_a_command_line() {
    let cmds = script_commands("login\r\nread  bob 5\n\nsend me hi there\n");
    assert_eq!(
        cmds,
        vec![
            strings(&["gram", "login"]),
            strings(&["gram", "read", "bob", "5"]),
            strings(&["gram"]),
            strings(&["gram", "send", "me", "hi", "there"]),
        ]
    );
    assert!(script_commands("").is_empty());
}

#[test]
fn failed_lines_are_reported_from_one() {
    assert_eq!(
        script_error("parse error", "a.gram", 0, "unknown command"),
        "parse error in a.gram:1 -> unknown command"
    );
    assert_eq!(
        script_error("command conversion error", "x", 41, "bad"),
        "command conversion error in x:42 -> bad"
    );
}
