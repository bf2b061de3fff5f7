//! How each statement's outcome is answered: what is printed, what the
//! context keeps, and whether the run goes on.
use vstd::prelude::*;

use crate::repl::RunMode;

verus! {

/// What came of one statement of a program.
#[derive(Debug)]
pub enum Outcome {
    /// An expression statement evaluated to the value written here as text.
    Value(String),
    /// The right side of a variable assignment evaluated to the value
    /// written here as text.
    Assigned(String),
    /// Evaluating an expression statement, or an assignment's right side,
    /// failed with the error written here as text.
    Failed(String),
    /// A function definition.
    Defined,
    /// The value typed for an assignment `name = ?` was not a number.
    InputRejected,
}

/// What the evaluation context keeps of a statement.
#[derive(Clone, Copy, Debug, PartialEq, Eq, Structural)]
pub enum Commit {
    /// Nothing: the context stays as it was.
    Nothing,
    /// The assigned value, under the variable's name.
    Variable,
    /// The definition, under the function's name.
    Function,
}

/// The answer to one statement's outcome.
#[derive(Debug)]
pub struct Reaction {
    /// The line printed, if any.
    pub output: Option<String>,
    /// What the context keeps.
    pub commit: Commit,
    /// Whether the run stops here.
    pub halt: bool,
}

/// Whether an outcome is an error.
pub open spec fn is_error(o: Outcome) -> bool {
    o is Failed || o is InputRejected
}

/// The line printed for `o` in a run of mode `mode`.
pub open spec fn output_of(mode: RunMode, o: Outcome) -> Option<Seq<char>> {
    match o {
        Outcome::Value(v) => match mode {
            RunMode::Interactive => Some(v@),
            RunMode::Batch => None,
        },
        Outcome::Assigned(v) => match mode {
            RunMode::Interactive => Some(v@),
            RunMode::Batch => None,
        },
        Outcome::Failed(e) => Some(e@),
        Outcome::Defined => match mode {
            RunMode::Interactive => Some(crate::repl::DEFINED_MESSAGE@),
            RunMode::Batch => None,
        },
        Outcome::InputRejected => Some(crate::repl::INVALID_INPUT_MESSAGE@),
    }
}

/// What the context keeps of `o` in a run of mode `mode`.
pub open spec fn commit_of(mode: RunMode, o: Outcome) -> Commit {
    match o {
        Outcome::Assigned(_) => Commit::Variable,
        Outcome::Defined => Commit::Function,
        _ => Commit::Nothing,
    }
}

/// Whether a run of mode `mode` stops after `o`.
pub open spec fn halts_on(mode: RunMode, o: Outcome) -> bool {
    mode is Batch && is_error(o)
}

/// The view of an optional line.
pub open spec fn line_view(s: Option<String>) -> Option<Seq<char>> {
    match s {
        Some(t) => Some(t@),
        None => None,
    }
}

/// Answers the outcome `o` of a statement in a run of mode `mode`.
pub fn react(mode: RunMode, o: Outcome) -> (r: Reaction)
    ensures
        line_view(r.output) == output_of(mode, o),
        r.commit == commit_of(mode, o),
        r.halt == halts_on(mode, o),
{
    let interactive = match mode {
        RunMode::Interactive => true,
        RunMode::Batch => false,
    };
    match o {
        Outcome::Value(v) => Reaction {
            output: if interactive { Some(v) } else { None },
            commit: Commit::Nothing,
            halt: false,
        },
        Outcome::Assigned(v) => Reaction {
            output: if interactive { Some(v) } else { None },
            commit: Commit::Variable,
            halt: false,
        },
        Outcome::Failed(e) => Reaction { output: Some(e), commit: Commit::Nothing, halt: !interactive },
        Outcome::Defined => Reaction {
            output: if interactive { Some(String::from_str(crate::repl::DEFINED_MESSAGE)) } else { None },
            commit: Commit::Function,
            halt: false,
        },
        Outcome::InputRejected => Reaction {
            output: Some(String::from_str(crate::repl::INVALID_INPUT_MESSAGE)),
            commit: Commit::Nothing,
            halt: !interactive,
        },
    }
}

/// An interactive run never stops on a statement: only the `exit` command
/// ends it.
pub proof fn interactive_never_halts(o: Outcome)
    ensures
        !halts_on(RunMode::Interactive, o),
{
}

/// An interactive run answers every statement with exactly one line.
pub proof fn interactive_answers_every_statement(o: Outcome)
    ensures
        output_of(RunMode::Interactive, o) is Some,
{
}

/// A batch run prints a line for a statement exactly when it stops there,
/// which is exactly when the statement failed.
pub proof fn batch_speaks_only_to_stop(o: Outcome)
    ensures
        (output_of(RunMode::Batch, o) is Some) == halts_on(RunMode::Batch, o),
        halts_on(RunMode::Batch, o) == is_error(o),
{
}

/// Both kinds of run change the context in the same way for the same outcome.
pub proof fn modes_commit_alike(o: Outcome)
    ensures
        commit_of(RunMode::Interactive, o) == commit_of(RunMode::Batch, o),
{
}

/// A failed statement changes nothing in the context, and both kinds of run
/// report it with the same text.
pub proof fn failures_commit_nothing(o: Outcome)
    requires
        is_error(o),
    ensures
        commit_of(RunMode::Interactive, o) == Commit::Nothing,
        commit_of(RunMode::Batch, o) == Commit::Nothing,
        output_of(RunMode::Interactive, o) == output_of(RunMode::Batch, o),
{
}

/// A function definition is answered "Ok!" interactively and silently in a
/// batch run, and the definition is kept in both.
pub proof fn definitions_are_acknowledged()
    ensures
        output_of(RunMode::Interactive, Outcome::Defined) == Some(crate::repl::DEFINED_MESSAGE@),
        output_of(RunMode::Batch, Outcome::Defined) is None,
        commit_of(RunMode::Interactive, Outcome::Defined) == Commit::Function,
        commit_of(RunMode::Batch, Outcome::Defined) == Commit::Function,
{
}

/// Every outcome is answered by its own kind, whatever text it carries:
/// a value is printed interactively; every successful assignment is kept as
/// a variable and every definition as a function; an error is printed in
/// both kinds of run, keeps nothing, and stops exactly a batch run; nothing
/// else stops a run.
pub proof fn answers_by_kind(mode: RunMode, v: String)
    ensures
        commit_of(mode, Outcome::Assigned(v)) == Commit::Variable,
        commit_of(mode, Outcome::Defined) == Commit::Function,
        commit_of(mode, Outcome::Value(v)) == Commit::Nothing,
        commit_of(mode, Outcome::Failed(v)) == Commit::Nothing,
        commit_of(mode, Outcome::InputRejected) == Commit::Nothing,
        output_of(RunMode::Interactive, Outcome::Value(v)) == Some(v@),
        output_of(RunMode::Interactive, Outcome::Assigned(v)) == Some(v@),
        output_of(RunMode::Interactive, Outcome::Defined) == Some("Ok!"@),
        output_of(RunMode::Batch, Outcome::Value(v)) is None,
        output_of(RunMode::Batch, Outcome::Assigned(v)) is None,
        output_of(RunMode::Batch, Outcome::Defined) is None,
        output_of(mode, Outcome::Failed(v)) == Some(v@),
        output_of(mode, Outcome::InputRejected) == Some("Invalid input. Expected a number."@),
        !halts_on(mode, Outcome::Value(v)),
        !halts_on(mode, Outcome::Assigned(v)),
        !halts_on(mode, Outcome::Defined),
        halts_on(mode, Outcome::Failed(v)) == (mode == RunMode::Batch),
        halts_on(mode, Outcome::InputRejected) == (mode == RunMode::Batch),
{
}

} // verus!
