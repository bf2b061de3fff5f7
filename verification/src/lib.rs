//! The decision layer of the yac expression interpreter: how a command-line
//! argument selects a mode, how a REPL line is classified, how each evaluated
//! statement is answered in interactive and batch runs, and the exact text of
//! every message the interpreter prints on its own.
use vstd::prelude::*;

pub mod cli;
pub mod repl;
pub mod session;
pub mod text;

verus! {

} // verus!
