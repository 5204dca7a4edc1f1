use slygen::shell::sh_outcome;
use slygen::strings::trim;
use slygen::terminal::logger::{color, init, log_line, header_text, header_underline, token, ColorName, LogLevel};
use slygen::terminal::question::{choose_option, Question};

#[test]
fn logger_threshold_filters_below() {
    let log = init(LogLevel::Info);
    assert!(!log.should_log(LogLevel::Debug));
    assert!(log.should_log(LogLevel::Info));
    assert!(log.should_log(LogLevel::Warn));
    assert!(log.should_log(LogLevel::Error));
}

#[test]
fn logger_off_drops_everything_below_it() {
    let log = init(LogLevel::Off);
    assert!(!log.should_log(LogLevel::Panic));
    assert!(log.should_log(LogLevel::Off));
}

#[test]
fn level_tokens_are_single_characters() {
    assert_eq!(token(&LogLevel::Debug), "D");
    assert_eq!(token(&LogLevel::Info), "I");
    assert_eq!(token(&LogLevel::Warn), "W");
    assert_eq!(token(&LogLevel::Error), "X");
    assert_eq!(token(&LogLevel::Panic), "!");
    assert_eq!(token(&LogLevel::Off), " ");
}

#[test]
fn level_colors_follow_severity() {
    assert_eq!(color(&LogLevel::Debug), ColorName::Grey);
    assert_eq!(color(&LogLevel::Info), ColorName::White);
    assert_eq!(color(&LogLevel::Warn), ColorName::Yellow);
    assert_eq!(color(&LogLevel::Error), ColorName::Red);
    assert_eq!(color(&LogLevel::Panic), ColorName::Magenta);
    assert_eq!(color(&LogLevel::Off), ColorName::Grey);
}

#[test]
fn log_line_frames_the_message() {
    assert_eq!(log_line("hello"), " hello\n");
}

#[test]
fn header_is_decorated_and_underlined() {
    let text = header_text("slygen");
    assert_eq!(text, "=== slygen ===");
    let underline = header_underline("slygen");
    assert_eq!(underline.len(), text.len());
    assert!(underline.chars().all(|c| c == '_'));
}

#[test]
fn trim_strips_surrounding_whitespace() {
    assert_eq!(trim("  a b \n"), "a b");
    assert_eq!(trim("\t\r\n "), "");
    assert_eq!(trim("plain"), "plain");
}

#[test]
fn trim_strips_the_same_set_as_std() {
    assert_eq!(trim("a\u{000C}"), "a\u{000C}".trim());
    assert_eq!(trim("\u{00A0}x\u{00A0}"), "\u{00A0}x\u{00A0}".trim());
    assert_eq!(trim("\u{2028}y\u{3000}"), "\u{2028}y\u{3000}".trim());
    assert_eq!(trim("\u{0085}\u{200A}z"), "z");
}

#[test]
fn shell_success_reports_trimmed_stdout() {
    let r = sh_outcome(true, Some(0), "done\n", "noise");
    assert_eq!(r.unwrap(), "done");
}

#[test]
fn shell_failure_reports_code_and_trimmed_stderr() {
    let e = sh_outcome(false, Some(2), "ignored", "broken\n").unwrap_err();
    assert_eq!(e.code, 2);
    assert_eq!(e.output, "broken");
}

#[test]
fn shell_failure_without_code_reports_zero() {
    let e = sh_outcome(false, None, "", "killed").unwrap_err();
    assert_eq!(e.code, 0);
    assert_eq!(e.output, "killed");
}

#[test]
fn open_question_prompt_is_bare() {
    let q = Question::new("What is your name?");
    assert_eq!(q.prompt(), " What is your name? ");
}

#[test]
fn option_question_prompt_lists_options() {
    let q = Question::new("Continue?").with_option("yes").with_option("no");
    assert_eq!(q.prompt(), " Continue? (yes/no)");
}

#[test]
fn default_question_prompt_names_the_default() {
    let q = Question::new("The answer?").with_default("42");
    assert_eq!(q.prompt(), " The answer? Hit ENTER to use default (42)");
}

#[test]
fn bare_newline_selects_the_default() {
    let q = Question::new("The answer?").with_default("42");
    assert_eq!(q.ask("\n"), "42");
}

#[test]
fn typed_line_beats_the_default() {
    let q = Question::new("The answer?").with_default("42");
    assert_eq!(q.ask("7\n"), "7");
}

#[test]
fn bare_newline_without_default_gives_empty_answer() {
    let q = Question::new("Name?");
    assert_eq!(q.ask("\n"), "");
}

#[test]
fn choose_option_picks_the_first_match() {
    let opts = vec!['y', 'n'];
    assert_eq!(choose_option(&opts, 'n'), Some(1));
    assert_eq!(choose_option(&opts, 'y'), Some(0));
    assert_eq!(choose_option(&opts, 'x'), None);
}
