use yac_shell::cli::select_mode;
use yac_shell::cli::unrecognized_argument_message;
use yac_shell::cli::Mode;
use yac_shell::cli::USAGE;

#[test]
fn no_argument_starts_the_repl() {
    assert_eq!(select_mode(None), Mode::Repl);
}

#[test]
fn execute_flags_select_batch_execution() {
    assert_eq!(select_mode(Some("-e")), Mode::Execute);
    assert_eq!(select_mode(Some("--execute")), Mode::Execute);
}

#[test]
fn help_flags_select_usage() {
    assert_eq!(select_mode(Some("-h")), Mode::Help);
    assert_eq!(select_mode(Some("--help")), Mode::Help);
}

#[test]
fn other_arguments_are_kept_as_given() {
    assert_eq!(select_mode(Some("-x")), Mode::Unrecognized("-x".to_string()));
    assert_eq!(select_mode(Some("")), Mode::Unrecognized(String::new()));
    assert_eq!(select_mode(Some("-e ")), Mode::Unrecognized("-e ".to_string()));
    assert_eq!(select_mode(Some("--HELP")), Mode::Unrecognized("--HELP".to_string()));
}

#[test]
fn unrecognized_argument_message_names_the_argument() {
    assert_eq!(
        unrecognized_argument_message("--verbose"),
        "Undefined argument '--verbose'. Use '-h' or '--help' to print help."
    );
}

#[test]
fn usage_lists_the_flags_and_grammar() {
    assert!(USAGE.starts_with("Usage: yac [OPTIONS]\n"));
    assert!(USAGE.contains("  -e, --execute    Execute a program passed through the pipe."));
    assert!(USAGE.contains("  ternary        = expr '?' expr ':' expr"));
    assert!(USAGE.ends_with("Example: (x > 0) ? x : -x"));
}
