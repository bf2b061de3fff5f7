//! A session of the interpreter: how an input line is classified, how each
//! statement's outcome is answered in an interactive or a batch run, and the
//! messages printed for parse failures and for `help functions`.
use vstd::prelude::*;

use crate::text::chars_of;
use crate::text::decimal;
use crate::text::decimal_denotes_its_number;
use crate::text::numeral_value;
use crate::text::push_decimal;
use crate::text::push_spaces;
use crate::text::spaces;
use crate::text::span_equals;
use crate::text::trim_bounds;
use crate::text::all_white_space;
use crate::text::trimming_ignores_padding;
use crate::text::trimmed;

verus! {

/// The prompt printed before each interactive line.
pub const PROMPT: &'static str = "> ";

/// The answer to the `help` command.
pub const HELP_MESSAGE: &'static str = "Available commands:
help - Print this help message.
help functions - List all defined functions and their signatures.
clear - Clear the screen.
exit - Exit the program.
You can also enter expressions, variable declarations, or function definitions directly.";

/// The answer to a function definition in an interactive run.
pub const DEFINED_MESSAGE: &'static str = "Ok!";

/// The answer when the value typed for `x = ?` is not a number.
pub const INVALID_INPUT_MESSAGE: &'static str = "Invalid input. Expected a number.";

/// What an interactive line asks for.
#[derive(Clone, Copy, Debug, PartialEq, Eq, Structural)]
pub enum Command {
    /// `help`: print the list of commands.
    Help,
    /// `help functions`: list the defined functions.
    HelpFunctions,
    /// `clear`: clear the screen.
    Clear,
    /// `exit`: end the session.
    Exit,
    /// Anything else: a statement of the language, to be parsed.
    Source,
}

/// The command that a line means once its surrounding whitespace is cut off.
pub open spec fn command_of(t: Seq<char>) -> Command {
    if t == "help"@ {
        Command::Help
    } else if t == "help functions"@ {
        Command::HelpFunctions
    } else if t == "clear"@ {
        Command::Clear
    } else if t == "exit"@ {
        Command::Exit
    } else {
        Command::Source
    }
}

/// Classifies an interactive input line; whitespace around a command word
/// does not matter.
pub fn classify_line(line: &str) -> (c: Command)
    ensures
        c == command_of(trimmed(line@)),
{
    let v = chars_of(line);
    let (s, e) = trim_bounds(&v);
    if span_equals(&v, s, e, "help") {
        Command::Help
    } else if span_equals(&v, s, e, "help functions") {
        Command::HelpFunctions
    } else if span_equals(&v, s, e, "clear") {
        Command::Clear
    } else if span_equals(&v, s, e, "exit") {
        Command::Exit
    } else {
        Command::Source
    }
}

/// Whitespace before and after a line does not change what it asks for.
pub proof fn classification_ignores_padding(p: Seq<char>, line: Seq<char>, q: Seq<char>)
    requires
        all_white_space(p),
        all_white_space(q),
    ensures
        command_of(trimmed(p + line + q)) == command_of(trimmed(line)),
{
    trimming_ignores_padding(p, line, q);
}

/// The prompt that asks for the value of the variable `name` in `name = ?`.
pub fn input_prompt(name: &str) -> (r: String)
    ensures
        r@ == "Enter value for variable '"@ + name@ + "': "@,
{
    let mut r = String::from_str("Enter value for variable '");
    r.append(name);
    r.append("': ");
    r
}

/// What a defined function is, as `help functions` lists it.
#[derive(Clone, Copy, Debug, PartialEq, Eq, Structural)]
pub enum FunctionKind {
    /// A built-in function taking `argc` arguments.
    Builtin { argc: usize },
    /// A function the user defined with `params` parameters.
    Custom { params: usize },
}

/// The line that `help functions` prints for the function `name`.
pub open spec fn listing_line(name: Seq<char>, kind: FunctionKind) -> Seq<char> {
    match kind {
        FunctionKind::Builtin { argc } => name + "("@ + decimal(argc as nat) + ")"@,
        FunctionKind::Custom { params } => name + "("@ + decimal(params as nat) + ") builtin"@,
    }
}

/// Writes the line that `help functions` prints for the function `name`.
pub fn function_listing_line(name: &str, kind: FunctionKind) -> (r: String)
    ensures
        r@ == listing_line(name@, kind),
{
    let mut r = String::from_str(name);
    r.append("(");
    match kind {
        FunctionKind::Builtin { argc } => {
            push_decimal(&mut r, argc as u64);
            r.append(")");
        },
        FunctionKind::Custom { params } => {
            push_decimal(&mut r, params as u64);
            r.append(") builtin");
        },
    }
    r
}

/// The line that points at a syntax error: it is printed under the echoed
/// input line, so the caret stands `offset` places after the prompt.
pub open spec fn caret_text(offset: nat, message: Seq<char>) -> Seq<char> {
    spaces(offset + 2) + "^- "@ + message
}


/// The caret stands under the refused input: the line starts with as many
/// spaces as the prompt and the offset take up, and then the caret.
pub proof fn caret_points_at_error(offset: nat, message: Seq<char>)
    ensures
        caret_text(offset, message).len() > PROMPT@.len() + offset,
        caret_text(offset, message)[PROMPT@.len() + offset as int] == '^',
        forall|i: int|
            0 <= i < PROMPT@.len() + offset ==> #[trigger] caret_text(offset, message)[i] == ' ',
{
    reveal_strlit("> ");
    reveal_strlit("^- ");
    let t = caret_text(offset, message);
    assert(t[offset + 2int] == "^- "@[0]);
}

/// Writes the line that points at a syntax error `offset` places into the
/// input line, followed by the parser's `message`.
pub fn caret_line(offset: usize, message: &str) -> (r: String)
    requires
        offset + 2 <= usize::MAX,
    ensures
        r@ == caret_text(offset as nat, message@),
{
    let mut r = String::new();
    push_spaces(&mut r, offset + 2);
    r.append("^- ");
    r.append(message);
    r
}

/// The line printed in a batch run for a syntax error at `line`, `column`.
pub open spec fn location_text(message: Seq<char>, line: nat, column: nat) -> Seq<char> {
    message + " at line "@ + decimal(line) + ", column "@ + decimal(column)
}

/// Writes the line printed in a batch run for a syntax error.
pub fn location_line(message: &str, line: u32, column: usize) -> (r: String)
    ensures
        r@ == location_text(message@, line as nat, column as nat),
{
    let mut r = String::from_str(message);
    r.append(" at line ");
    push_decimal(&mut r, line as u64);
    r.append(", column ");
    push_decimal(&mut r, column as u64);
    r
}

/// How a run reads its statements.
#[derive(Clone, Copy, Debug, PartialEq, Eq, Structural)]
pub enum RunMode {
    /// One line at a time from the terminal, answering each.
    Interactive,
    /// The whole program from standard input, speaking only on errors.
    Batch,
}

/// Why the parser refused the input.
#[derive(Debug)]
pub enum SyntaxFailure {
    /// More input was needed; the parser's account of how much, as text.
    Incomplete(String),
    /// The input does not follow the grammar.
    Rejected {
        /// The parser's message.
        message: String,
        /// How far into its line the refused input starts.
        offset: usize,
        /// The line of the refused input, counted from 1.
        line: u32,
        /// The column of the refused input, counted from 1.
        column: usize,
    },
}

/// The text printed for a parse failure in a run of mode `mode`.
pub open spec fn syntax_failure_text_of(mode: RunMode, f: SyntaxFailure) -> Seq<char> {
    match f {
        SyntaxFailure::Incomplete(needed) => needed@,
        SyntaxFailure::Rejected { message, offset, line, column } => match mode {
            RunMode::Interactive => caret_text(offset as nat, message@),
            RunMode::Batch => location_text(message@, line as nat, column as nat),
        },
    }
}

/// Writes the text printed for a parse failure: a caret under the refused
/// input in an interactive run, its line and column in a batch run.
pub fn syntax_failure_text(mode: RunMode, f: SyntaxFailure) -> (r: String)
    requires
        mode is Interactive ==> (f matches SyntaxFailure::Rejected { offset, .. } ==> offset + 2
            <= usize::MAX),
    ensures
        r@ == syntax_failure_text_of(mode, f),
{
    match f {
        SyntaxFailure::Incomplete(needed) => needed,
        SyntaxFailure::Rejected { message, offset, line, column } => match mode {
            RunMode::Interactive => caret_line(offset, message.as_str()),
            RunMode::Batch => location_line(message.as_str(), line, column),
        },
    }
}

/// Only the four command words are commands, each meaning its own command;
/// every other text is a statement to parse.
pub proof fn only_command_words_are_commands(t: Seq<char>)
    ensures
        (command_of(t) == Command::Help) == (t == "help"@),
        (command_of(t) == Command::HelpFunctions) == (t == "help functions"@),
        (command_of(t) == Command::Clear) == (t == "clear"@),
        (command_of(t) == Command::Exit) == (t == "exit"@),
        (command_of(t) == Command::Source) == (t != "help"@ && t != "help functions"@ && t
            != "clear"@ && t != "exit"@),
{
    reveal_strlit("help");
    reveal_strlit("help functions");
    reveal_strlit("clear");
    reveal_strlit("exit");
    assert("help"@.len() != "help functions"@.len());
    assert("help"@.len() != "clear"@.len());
    assert("help functions"@.len() != "clear"@.len());
    assert("help functions"@.len() != "exit"@.len());
    assert("clear"@.len() != "exit"@.len());
    assert("help"@[0] != "exit"@[0]);
}

/// `help functions` shows the function's name and, in brackets, the decimal
/// numeral of its argument count (a user-defined function's parameter
/// count), the latter followed by ` builtin`.
pub proof fn listing_shows_the_argument_count(name: Seq<char>, n: usize)
    ensures
        listing_line(name, FunctionKind::Builtin { argc: n }) == name + "("@ + decimal(n as nat)
            + ")"@,
        listing_line(name, FunctionKind::Custom { params: n }) == name + "("@ + decimal(n as nat)
            + ") builtin"@,
        numeral_value(decimal(n as nat)) == n,
{
    decimal_denotes_its_number(n as nat);
}

/// In an interactive run a refused input is reported by a line of spaces as
/// long as the prompt and the offset, the caret, `- ` and the parser's
/// message; in a batch run by the message, ` at line `, the line's decimal
/// numeral, `, column ` and the column's; a need for more input by the
/// parser's own account of it.
pub proof fn syntax_failure_report(message: String, offset: usize, line: u32, column: usize, needed: String)
    ensures
        ({
            let t = syntax_failure_text_of(
                RunMode::Interactive,
                SyntaxFailure::Rejected { message, offset, line, column },
            );
            let o = PROMPT@.len() + offset;
            &&& t.len() == o + 3 + message@.len()
            &&& forall|i: int| 0 <= i < o ==> #[trigger] t[i] == ' '
            &&& t[o] == '^'
            &&& t[o + 1] == '-'
            &&& t[o + 2] == ' '
            &&& t.subrange(o + 3, t.len() as int) == message@
        }),
        syntax_failure_text_of(
            RunMode::Batch,
            SyntaxFailure::Rejected { message, offset, line, column },
        ) == message@ + " at line "@ + decimal(line as nat) + ", column "@ + decimal(column as nat),
        numeral_value(decimal(line as nat)) == line,
        numeral_value(decimal(column as nat)) == column,
        syntax_failure_text_of(RunMode::Interactive, SyntaxFailure::Incomplete(needed)) == needed@,
        syntax_failure_text_of(RunMode::Batch, SyntaxFailure::Incomplete(needed)) == needed@,
{
    reveal_strlit("> ");
    reveal_strlit("^- ");
    let t = syntax_failure_text_of(
        RunMode::Interactive,
        SyntaxFailure::Rejected { message, offset, line, column },
    );
    let o = PROMPT@.len() + offset;
    assert(t.subrange(o + 3, t.len() as int) =~= message@);
    decimal_denotes_its_number(line as nat);
    decimal_denotes_its_number(column as nat);
}

/// A batch run's syntax error gives the message, then ` at line ` and the
/// decimal numeral of the line, then `, column ` and that of the column.
pub proof fn location_gives_line_and_column(message: Seq<char>, line: nat, column: nat)
    ensures
        location_text(message, line, column) == message + " at line "@ + decimal(line)
            + ", column "@ + decimal(column),
        numeral_value(decimal(line)) == line,
        numeral_value(decimal(column)) == column,
{
    decimal_denotes_its_number(line);
    decimal_denotes_its_number(column);
}

} // verus!
