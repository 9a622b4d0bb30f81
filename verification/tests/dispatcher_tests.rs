use server_manager::dispatcher::DispatchAction;
use server_manager::dispatcher::dispatch_line;
use server_manager::dispatcher::trim_str;

#[test]
fn non_reserved_line_is_forwarded_byte_exact() {
    match dispatch_line("say hello") {
        DispatchAction::Forward(s) => assert_eq!(s.as_bytes(), b"say hello\n"),
        _ => panic!("a non-reserved line must be forwarded"),
    }
}

#[test]
fn forwarded_line_keeps_its_own_terminator() {
    match dispatch_line("say hello\n") {
        DispatchAction::Forward(s) => assert_eq!(s.as_bytes(), b"say hello\n"),
        _ => panic!("a non-reserved line must be forwarded"),
    }
}

#[test]
fn stop_keyword_is_matched_after_trim() {
    assert!(matches!(dispatch_line("stop"), DispatchAction::Stop));
    assert!(matches!(dispatch_line("stop\n"), DispatchAction::Stop));
    assert!(matches!(dispatch_line("  stop \r\n"), DispatchAction::Stop));
}

#[test]
fn backup_keyword_is_matched_after_trim() {
    assert!(matches!(dispatch_line("backup"), DispatchAction::Backup));
    assert!(matches!(dispatch_line("\tbackup\n"), DispatchAction::Backup));
}

#[test]
fn keyword_with_extra_words_is_forwarded() {
    match dispatch_line("stop now\n") {
        DispatchAction::Forward(s) => assert_eq!(s, "stop now\n"),
        _ => panic!("only an exact keyword is reserved"),
    }
}

#[test]
fn keywords_are_case_sensitive() {
    assert!(matches!(dispatch_line("Stop\n"), DispatchAction::Forward(_)));
    assert!(matches!(dispatch_line("BACKUP"), DispatchAction::Forward(_)));
}

#[test]
fn empty_line_becomes_a_bare_newline() {
    match dispatch_line("") {
        DispatchAction::Forward(s) => assert_eq!(s, "\n"),
        _ => panic!("an empty line is not reserved"),
    }
}

#[test]
fn trim_strips_both_ends_only() {
    assert_eq!(trim_str("  a b \t\r\n"), "a b");
    assert_eq!(trim_str(""), "");
    assert_eq!(trim_str(" \n "), "");
    assert_eq!(trim_str("x"), "x");
}
