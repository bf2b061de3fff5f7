//! The command line: which mode an argument selects, and what is printed for it.
use vstd::prelude::*;

use crate::text::chars_of;
use crate::text::span_equals;

verus! {

/// What the interpreter does for its first command-line argument.
#[derive(Debug, PartialEq, Eq)]
pub enum Mode {
    /// No argument: read lines interactively.
    Repl,
    /// `-e` or `--execute`: run the whole program read from standard input.
    Execute,
    /// `-h` or `--help`: print the usage text.
    Help,
    /// Anything else, kept as given.
    Unrecognized(String),
}

/// The usage text printed for `-h` and `--help`.
pub const USAGE: &'static str = "Usage: yac [OPTIONS]

yac - Simple Expression Interpreter

Options:
  -e, --execute    Execute a program passed through the pipe.
  -h, --help       Display this help message.

Description:
  Call the program without arguments to enter REPL mode.
  To execute a program, pass it through the pipe with the '-e' or '--execute' flag.

Syntax rules:
  expr           = term (operator term)* | ternary
  term           = number | ident | func_call | '(' expr ')' | unary_operator term
  func_call      = ident '(' args ')' '=' expr
  var            = ident '=' expr
  args           = ident (',' ident)*
  operator       = '+' | '-' | '*' | '/' | '%' | '<' | '<=' | '==' | '!=' | '>=' | '>'
  unary_operator = '+' | '-' | '!'
  ternary        = expr '?' expr ':' expr

Note:
  For ternary expressions, the condition should be wrapped in parentheses if it is complex.
  Example: (x > 0) ? x : -x";

/// Whether `a` asks for batch execution.
pub open spec fn is_execute_flag(a: Seq<char>) -> bool {
    a == "-e"@ || a == "--execute"@
}

/// Whether `a` asks for the usage text.
pub open spec fn is_help_flag(a: Seq<char>) -> bool {
    a == "-h"@ || a == "--help"@
}

/// The mode that the first argument `arg` selects.
pub fn select_mode(arg: Option<&str>) -> (m: Mode)
    ensures
        (match arg {
            None => m is Repl,
            Some(a) => if is_execute_flag(a@) {
                m is Execute
            } else if is_help_flag(a@) {
                m is Help
            } else {
                m matches Mode::Unrecognized(s) && s@ == a@
            },
        }),
{
    match arg {
        None => Mode::Repl,
        Some(a) => {
            let v = chars_of(a);
            let n = v.len();
            if span_equals(&v, 0, n, "-e") || span_equals(&v, 0, n, "--execute") {
                assert(v@.subrange(0, n as int) =~= a@);
                Mode::Execute
            } else if span_equals(&v, 0, n, "-h") || span_equals(&v, 0, n, "--help") {
                assert(v@.subrange(0, n as int) =~= a@);
                Mode::Help
            } else {
                assert(v@.subrange(0, n as int) =~= a@);
                Mode::Unrecognized(String::from_str(a))
            }
        },
    }
}

/// The line printed for an argument that selects no mode.
pub fn unrecognized_argument_message(arg: &str) -> (r: String)
    ensures
        r@ == "Undefined argument '"@ + arg@ + "'. Use '-h' or '--help' to print help."@,
{
    let mut r = String::from_str("Undefined argument '");
    r.append(arg);
    r.append("'. Use '-h' or '--help' to print help.");
    r
}

/// Exactly `-e` and `--execute` ask for batch execution, exactly `-h` and
/// `--help` for the usage text, and no argument asks for both.
pub proof fn flags_are_exact(a: Seq<char>)
    ensures
        is_execute_flag(a) == (a == "-e"@ || a == "--execute"@),
        is_help_flag(a) == (a == "-h"@ || a == "--help"@),
        !(is_execute_flag(a) && is_help_flag(a)),
{
    reveal_strlit("-e");
    reveal_strlit("--execute");
    reveal_strlit("-h");
    reveal_strlit("--help");
    assert("-e"@[1] != "-h"@[1]);
    assert("-e"@.len() != "--help"@.len());
    assert("--execute"@.len() != "-h"@.len());
    assert("--execute"@.len() != "--help"@.len());
}

} // verus!
