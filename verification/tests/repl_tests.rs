use yac_shell::repl::caret_line;
use yac_shell::repl::classify_line;
use yac_shell::repl::function_listing_line;
use yac_shell::repl::input_prompt;
use yac_shell::repl::location_line;
use yac_shell::repl::syntax_failure_text;
use yac_shell::repl::Command;
use yac_shell::repl::FunctionKind;
use yac_shell::repl::RunMode;
use yac_shell::repl::SyntaxFailure;
use yac_shell::repl::DEFINED_MESSAGE;
use yac_shell::repl::HELP_MESSAGE;
use yac_shell::repl::INVALID_INPUT_MESSAGE;
use yac_shell::repl::PROMPT;

#[test]
fn commands_are_recognised() {
    assert_eq!(classify_line("help\n"), Command::Help);
    assert_eq!(classify_line("help functions\n"), Command::HelpFunctions);
    assert_eq!(classify_line("clear\r\n"), Command::Clear);
    assert_eq!(classify_line("exit\n"), Command::Exit);
}

#[test]
fn surrounding_whitespace_is_ignored() {
    assert_eq!(classify_line("  help \t\r\n"), Command::Help);
    assert_eq!(classify_line("\u{00A0}exit\u{3000}"), Command::Exit);
    assert_eq!(classify_line("\n\nclear"), Command::Clear);
}

#[test]
fn everything_else_is_source() {
    assert_eq!(classify_line("1 + 2\n"), Command::Source);
    assert_eq!(classify_line("help  functions\n"), Command::Source);
    assert_eq!(classify_line("Help\n"), Command::Source);
    assert_eq!(classify_line("exit()\n"), Command::Source);
    assert_eq!(classify_line(""), Command::Source);
    assert_eq!(classify_line("   \r\n"), Command::Source);
}

#[test]
fn help_message_lists_the_commands() {
    assert!(HELP_MESSAGE.starts_with("Available commands:\nhelp - Print this help message.\n"));
    assert!(HELP_MESSAGE.contains("exit - Exit the program.\n"));
    assert_eq!(PROMPT, "> ");
    assert_eq!(DEFINED_MESSAGE, "Ok!");
    assert_eq!(INVALID_INPUT_MESSAGE, "Invalid input. Expected a number.");
}

#[test]
fn input_prompt_names_the_variable() {
    assert_eq!(input_prompt("x"), "Enter value for variable 'x': ");
}

#[test]
fn function_listing_lines() {
    assert_eq!(function_listing_line("abs", FunctionKind::Builtin { argc: 1 }), "abs(1)");
    assert_eq!(function_listing_line("add", FunctionKind::Custom { params: 2 }), "add(2) builtin");
    assert_eq!(function_listing_line("f", FunctionKind::Builtin { argc: 0 }), "f(0)");
    assert_eq!(
        function_listing_line("g", FunctionKind::Custom { params: 1234567 }),
        "g(1234567) builtin"
    );
    assert_eq!(
        function_listing_line("h", FunctionKind::Builtin { argc: 10 }),
        "h(10)"
    );
}

#[test]
fn caret_line_points_past_the_prompt() {
    assert_eq!(caret_line(0, "expected expression"), "  ^- expected expression");
    assert_eq!(caret_line(4, "bad"), "      ^- bad");
    let line = caret_line(7, "m");
    assert_eq!(line.find('^'), Some(PROMPT.len() + 7));
}

#[test]
fn location_line_gives_line_and_column() {
    assert_eq!(location_line("unexpected token", 3, 14), "unexpected token at line 3, column 14");
    assert_eq!(location_line("x", 1, 1), "x at line 1, column 1");
    assert_eq!(location_line("y", 4294967295, 0), "y at line 4294967295, column 0");
}

#[test]
fn syntax_failures_by_mode() {
    let rejected = || SyntaxFailure::Rejected {
        message: "expected ')'".to_string(),
        offset: 3,
        line: 2,
        column: 4,
    };
    assert_eq!(syntax_failure_text(RunMode::Interactive, rejected()), "     ^- expected ')'");
    assert_eq!(syntax_failure_text(RunMode::Batch, rejected()), "expected ')' at line 2, column 4");
    assert_eq!(
        syntax_failure_text(RunMode::Interactive, SyntaxFailure::Incomplete("Unknown".to_string())),
        "Unknown"
    );
    assert_eq!(
        syntax_failure_text(RunMode::Batch, SyntaxFailure::Incomplete("Size(1)".to_string())),
        "Size(1)"
    );
}
