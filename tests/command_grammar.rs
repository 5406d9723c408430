use rdbg::command::{parse_line, parse_words, CommandError, DebugCommand};

#[test]
fn quit_and_its_alias() {
    assert!(matches!(parse_line("quit"), Ok(DebugCommand::Quit)));
    assert!(matches!(parse_line("  q  "), Ok(DebugCommand::Quit)));
}

#[test]
fn run_takes_every_following_word() {
    match parse_line("run  a b\tc") {
        Ok(DebugCommand::Run { args }) => assert_eq!(args, vec!["a".to_string(), "b".to_string(), "c".to_string()]),
        _ => panic!("expected a run command"),
    }
    match parse_line("r") {
        Ok(DebugCommand::Run { args }) => assert!(args.is_empty()),
        _ => panic!("expected a run command"),
    }
}

#[test]
fn continue_backtrace_help() {
    assert!(matches!(parse_line("continue"), Ok(DebugCommand::Continue)));
    assert!(matches!(parse_line("c"), Ok(DebugCommand::Continue)));
    assert!(matches!(parse_line("backtrace"), Ok(DebugCommand::BackTrace)));
    assert!(matches!(parse_line("bt"), Ok(DebugCommand::BackTrace)));
    assert!(matches!(parse_line("help"), Ok(DebugCommand::Help)));
    assert!(matches!(parse_line("h"), Ok(DebugCommand::Help)));
}

#[test]
fn empty_and_blank_lines_are_refused_silently() {
    assert!(matches!(parse_line(""), Err(CommandError::Empty)));
    assert!(matches!(parse_line(" \t  "), Err(CommandError::Empty)));
    assert!(!CommandError::Empty.is_reported());
}

#[test]
fn unknown_words_are_reported() {
    assert!(matches!(parse_line("launch now"), Err(CommandError::Unknown)));
    assert!(matches!(parse_line("Quit"), Err(CommandError::Unknown)));
    assert!(CommandError::Unknown.is_reported());
}

#[test]
fn arguments_to_plain_commands_are_refused() {
    assert!(matches!(parse_line("quit now"), Err(CommandError::UnexpectedArgument)));
    assert!(matches!(parse_line("c 1"), Err(CommandError::UnexpectedArgument)));
    assert!(CommandError::UnexpectedArgument.is_reported());
}

#[test]
fn every_line_gives_one_outcome() {
    let lines = ["", "q", "r x", "bt", "zzz", "help me", "continue", "   "];
    for line in lines.iter() {
        let outcome = parse_line(line);
        assert!(outcome.is_ok() != outcome.is_err());
    }
}

#[test]
fn words_parse_like_lines() {
    let words = vec!["run".to_string(), "--flag".to_string()];
    match parse_words(&words) {
        Ok(DebugCommand::Run { args }) => assert_eq!(args, vec!["--flag".to_string()]),
        _ => panic!("expected a run command"),
    }
    assert!(matches!(parse_words(&Vec::new()), Err(CommandError::Empty)));
}

#[test]
fn unicode_white_space_makes_a_blank_line() {
    assert!(matches!(parse_line("\u{3000}\u{a0}\u{2028}"), Err(CommandError::Empty)));
    assert!(matches!(parse_line("\u{a0}q\u{3000}"), Ok(DebugCommand::Quit)));
}
