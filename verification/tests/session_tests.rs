use yac_shell::repl::RunMode;
use yac_shell::session::react;
use yac_shell::session::Commit;
use yac_shell::session::Outcome;

#[test]
fn interactive_answers() {
    let r = react(RunMode::Interactive, Outcome::Value("30".to_string()));
    assert_eq!((r.output.as_deref(), r.commit, r.halt), (Some("30"), Commit::Nothing, false));
    let r = react(RunMode::Interactive, Outcome::Assigned("15".to_string()));
    assert_eq!((r.output.as_deref(), r.commit, r.halt), (Some("15"), Commit::Variable, false));
    let r = react(RunMode::Interactive, Outcome::Defined);
    assert_eq!((r.output.as_deref(), r.commit, r.halt), (Some("Ok!"), Commit::Function, false));
    let r = react(
        RunMode::Interactive,
        Outcome::Failed("Undefined variable: 'undefined_var'".to_string()),
    );
    assert_eq!(
        (r.output.as_deref(), r.commit, r.halt),
        (Some("Undefined variable: 'undefined_var'"), Commit::Nothing, false)
    );
    let r = react(RunMode::Interactive, Outcome::InputRejected);
    assert_eq!(
        (r.output.as_deref(), r.commit, r.halt),
        (Some("Invalid input. Expected a number."), Commit::Nothing, false)
    );
}

#[test]
fn batch_answers() {
    let r = react(RunMode::Batch, Outcome::Value("30".to_string()));
    assert_eq!((r.output.as_deref(), r.commit, r.halt), (None, Commit::Nothing, false));
    let r = react(RunMode::Batch, Outcome::Assigned("15".to_string()));
    assert_eq!((r.output.as_deref(), r.commit, r.halt), (None, Commit::Variable, false));
    let r = react(RunMode::Batch, Outcome::Defined);
    assert_eq!((r.output.as_deref(), r.commit, r.halt), (None, Commit::Function, false));
    let r = react(
        RunMode::Batch,
        Outcome::Failed("Division by expression that evaluates to zero: '0'".to_string()),
    );
    assert_eq!(
        (r.output.as_deref(), r.commit, r.halt),
        (Some("Division by expression that evaluates to zero: '0'"), Commit::Nothing, true)
    );
    let r = react(RunMode::Batch, Outcome::InputRejected);
    assert_eq!(
        (r.output.as_deref(), r.commit, r.halt),
        (Some("Invalid input. Expected a number."), Commit::Nothing, true)
    );
}

#[test]
fn modes_commit_alike_on_examples() {
    let outcomes = || {
        vec![
            Outcome::Value("1".to_string()),
            Outcome::Assigned("2".to_string()),
            Outcome::Failed("e".to_string()),
            Outcome::Defined,
            Outcome::InputRejected,
        ]
    };
    for (a, b) in outcomes().into_iter().zip(outcomes()) {
        let ra = react(RunMode::Interactive, a);
        let rb = react(RunMode::Batch, b);
        assert_eq!(ra.commit, rb.commit);
        assert!(!ra.halt);
        assert!(ra.output.is_some());
        assert_eq!(rb.output.is_some(), rb.halt);
    }
}
