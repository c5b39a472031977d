use reason::cmd::parse_command;
use reason::error::Fallacy;

fn ok(line: &str) -> Vec<Vec<String>> {
    parse_command(line).expect("expected the line to parse")
}

fn err_message(line: &str) -> String {
    match parse_command(line) {
        Err(Fallacy::InvalidCommand(m)) => m,
        Err(_) => panic!("expected an invalid-command error"),
        Ok(_) => panic!("expected the line to be rejected"),
    }
}

fn words(v: &[&str]) -> Vec<String> {
    v.iter().map(|s| s.to_string()).collect()
}

#[test]
fn normal_single() {
    assert_eq!(ok("ls shadowtutor"), vec![words(&["ls", "shadowtutor"])]);
}

#[test]
fn normal_many() {
    assert_eq!(
        ok("ls   shadowtutor by  \tChung  "),
        vec![words(&["ls", "shadowtutor", "by", "Chung"])]
    );
}

#[test]
fn pipe_single() {
    assert_eq!(
        ok("ls shadowtutor | printf"),
        vec![words(&["ls", "shadowtutor"]), words(&["printf"])]
    );
}

#[test]
fn pipe_many() {
    assert_eq!(
        ok("ls shadow|tutor by| Chung on icpp |2020 "),
        vec![
            words(&["ls", "shadow"]),
            words(&["tutor", "by"]),
            words(&["Chung", "on", "icpp"]),
            words(&["2020"]),
        ]
    );
}

#[test]
fn pipe_without_spaces() {
    assert_eq!(ok("cmd1|cmd2"), vec![words(&["cmd1"]), words(&["cmd2"])]);
    assert_eq!(ok("cmd1 | cmd2"), vec![words(&["cmd1"]), words(&["cmd2"])]);
}

#[test]
fn quote_whitespace() {
    assert_eq!(ok("ls 'shadow tutor'"), vec![words(&["ls", "shadow tutor"])]);
}

#[test]
fn quote_pipe() {
    assert_eq!(ok("ls 'shadow|tutor'"), vec![words(&["ls", "shadow|tutor"])]);
    assert_eq!(ok("ls 'a|b'"), vec![words(&["ls", "a|b"])]);
}

#[test]
fn escaped_quote() {
    assert_eq!(ok(r"ls 'a\'b'"), vec![words(&["ls", "a'b"])]);
}

#[test]
fn all_in_one() {
    assert_eq!(
        ok(r"  ls  ' shadow| tutor\'' | 'printf ' 	 this\' paper  "),
        vec![
            words(&["ls", " shadow| tutor'"]),
            words(&["printf ", "this'", "paper"]),
        ]
    );
}

#[test]
fn empty() {
    assert_eq!(ok(""), vec![Vec::<String>::new()]);
}

#[test]
fn whitespace_only() {
    assert_eq!(ok("   \t "), vec![Vec::<String>::new()]);
}

#[test]
fn double_pipe() {
    assert_eq!(err_message("ls shadowtutor || printf"), "Invalid use of pipes.");
    assert_eq!(err_message("ls||ls"), "Invalid use of pipes.");
}

#[test]
fn ends_with_pipe1() {
    assert_eq!(
        err_message("ls shadowtutor|"),
        "Command cannot end with a dangling pipe."
    );
    assert_eq!(err_message("ls|"), "Command cannot end with a dangling pipe.");
}

#[test]
fn ends_with_pipe2() {
    assert_eq!(
        err_message("ls shadowtutor | "),
        "Command cannot end with a dangling pipe."
    );
}

#[test]
fn starts_with_pipe1() {
    assert_eq!(err_message("|ls shadowtutor"), "Command cannot start with a pipe.");
    assert_eq!(err_message("|ls"), "Command cannot start with a pipe.");
}

#[test]
fn starts_with_pipe2() {
    assert_eq!(err_message(" |  ls shadowtutor"), "Command cannot start with a pipe.");
}

#[test]
fn error_messages_are_distinguishable() {
    let leading = err_message("|ls");
    let trailing = err_message("ls|");
    let double = err_message("ls||ls");
    assert_ne!(leading, trailing);
    assert_ne!(leading, double);
    assert_ne!(trailing, double);
}
