use ua_matcher::shell::{command_of, Command};

#[test]
fn empty_line_is_skipped() {
    assert_eq!(command_of(""), Command::Skip);
}

#[test]
fn quit_words_end_the_loop() {
    assert_eq!(command_of("q"), Command::Quit);
    assert_eq!(command_of("exit"), Command::Quit);
}

#[test]
fn quit_words_are_case_sensitive_and_exact() {
    assert_eq!(command_of("Q"), Command::Detect);
    assert_eq!(command_of("EXIT"), Command::Detect);
    assert_eq!(command_of("quit"), Command::Detect);
    assert_eq!(command_of("exit now"), Command::Detect);
    assert_eq!(command_of("Firefox/64.0"), Command::Detect);
}
