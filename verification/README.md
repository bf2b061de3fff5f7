# yac_shell

The verified decision layer of `yac`, a small expression interpreter.

- `src/cli.rs`: which mode the first command-line argument selects, the usage
  text, and the message for an unknown argument.
- `src/repl.rs`: classification of interactive lines (`help`, `help functions`,
  `clear`, `exit`, or a statement), the lines printed by `help functions`, and
  the text of parse failures (a caret under the refused input interactively,
  line and column in a batch run).
- `src/session.rs`: the answer to each statement's outcome in an interactive or
  a batch run (what is printed, what the context keeps, whether the run stops),
  with the laws that relate the two kinds of run.
- `src/text.rs`: Unicode whitespace, trimming, decimal numerals.
- `app/main.rs`: the program itself: terminal and pipe I/O, the language's
  parser and evaluator (`yac::lang`, floating point), and the loops that hand
  each outcome to the library and carry out its answer.
