use rustci::bridge::{compile_outcome, execute_outcome, Failure, ProcessOutput};
use rustci::function::InternalFunction;
use rustci::input::{Input, ReplCommand};
use rustci::repl::{Repl, Step};
use rustyline::history::{History, MemHistory};

const PROLOGUE_0: &str = "fn main() { let unit_count: usize = 0; let mut counter: usize = 0;\n";
const PROLOGUE_1: &str = "fn main() { let unit_count: usize = 1; let mut counter: usize = 0;\n";

fn output(stdout: &str, stderr: &str, status: Option<i32>) -> ProcessOutput {
    ProcessOutput { stdout: stdout.to_string(), stderr: stderr.to_string(), status }
}

fn statement(text: &str) -> ReplCommand {
    ReplCommand::AddExpression(text.to_string())
}

fn probe(text: &str) -> ReplCommand {
    ReplCommand::PrintValue(text.to_string())
}

fn candidate_of(step: Step) -> InternalFunction {
    match step {
        Step::Run(candidate) => candidate,
        other => panic!("expected a candidate, got {:?}", other),
    }
}

fn shown(step: Step) -> String {
    match step {
        Step::Show(text) => text,
        other => panic!("expected a text to show, got {:?}", other),
    }
}

/// Processes the command and concludes its attempt with the given outcome.
fn submit(repl: &mut Repl, command: ReplCommand, outcome: Result<String, Failure>) -> String {
    let candidate = candidate_of(repl.process_command(command, None));
    repl.conclude(candidate, outcome)
}

fn committed(repl: &mut Repl, command: ReplCommand) {
    submit(repl, command, Ok(String::new()));
}

#[test]
fn new_session_is_empty() {
    let repl = Repl::new();
    assert_eq!(repl.function().unit_count(), 0);
    assert_eq!(repl.function(), &InternalFunction::new());
}

#[test]
fn nothing_continues_and_changes_nothing() {
    let mut repl = Repl::new();
    committed(&mut repl, statement("let x = 5"));
    let before = repl.function().clone();
    assert_eq!(repl.process_command(ReplCommand::Nothing, None), Step::Continue);
    assert_eq!(repl.function(), &before);
}

#[test]
fn exit_ends_the_session_and_changes_nothing() {
    let mut repl = Repl::new();
    committed(&mut repl, statement("let x = 5"));
    let before = repl.function().clone();
    assert_eq!(repl.process_command(ReplCommand::Exit, None), Step::Exit);
    assert_eq!(repl.function(), &before);
}

#[test]
fn print_code_shows_the_program_text() {
    let mut repl = Repl::new();
    committed(&mut repl, statement("let x = 5"));
    let before = repl.function().clone();
    assert_eq!(
        repl.process_command(ReplCommand::PrintCode, None),
        Step::Show(format!("{}let x = 5; counter += 1;\n}}", PROLOGUE_1))
    );
    assert_eq!(repl.function(), &before);
}

#[test]
fn print_code_shows_the_open_continuation_after_the_program() {
    let mut repl = Repl::new();
    let text = shown(repl.process_command(ReplCommand::PrintCode, Some("let a =\n1".to_string())));
    assert_eq!(text, format!("{}}}\nlet a =\n1", PROLOGUE_0));
}

#[test]
fn statement_asks_for_its_candidate_and_changes_nothing() {
    let mut repl = Repl::new();
    committed(&mut repl, statement("let x = 5"));
    let before = repl.function().clone();
    let step = repl.process_command(statement("let y = 6"), None);
    assert_eq!(step, Step::Run(before.append(&statement("let y = 6"))));
    assert_eq!(repl.function(), &before);
}

#[test]
fn probe_asks_for_its_candidate_and_changes_nothing() {
    let mut repl = Repl::new();
    committed(&mut repl, statement("let x = 5"));
    let before = repl.function().clone();
    let step = repl.process_command(probe("x"), None);
    assert_eq!(step, Step::Run(before.append(&probe("x"))));
    assert_eq!(repl.function(), &before);
}

#[test]
fn success_commits_the_candidate() {
    let mut repl = Repl::new();
    committed(&mut repl, statement("let x = 5"));
    let before = repl.function().clone();
    let line = submit(&mut repl, probe("x"), Ok("5\n".to_string()));
    assert_eq!(line, "= 5\n");
    assert_eq!(repl.function().unit_count(), before.unit_count() + 1);
    assert_eq!(repl.function(), &before.append(&probe("x")));
    let old_text = before.file_contents();
    let old_units = &old_text[old_text.find('\n').unwrap() + 1..old_text.len() - 1];
    let new_text = repl.function().file_contents();
    let new_units = &new_text[new_text.find('\n').unwrap() + 1..new_text.len() - 1];
    assert_eq!(
        new_units,
        format!(
            "{}{}",
            old_units,
            "if counter + 1 == unit_count { println!(\"{:?}\", { x }); } counter += 1;\n"
        )
    );
}

#[test]
fn compile_failure_rolls_back() {
    let mut repl = Repl::new();
    committed(&mut repl, statement("let x = 5"));
    let before = repl.function().clone();
    let text_before = before.file_contents();
    let failure = Failure::CompileError(output("", "error: expected expression", Some(1)));
    let line = submit(&mut repl, statement("x +"), Err(failure));
    assert_eq!(line, "ERR stdout: \nstderr: error: expected expression\nerrorcode: 1");
    assert_eq!(repl.function(), &before);
    assert_eq!(repl.function().unit_count(), 1);
    assert_eq!(repl.function().file_contents(), text_before);
}

#[test]
fn runtime_failure_rolls_back() {
    let mut repl = Repl::new();
    committed(&mut repl, statement("let x = 5"));
    let before = repl.function().clone();
    let failure = Failure::RuntimeError(output("", "thread 'main' panicked", Some(101)));
    let line = submit(&mut repl, probe("1 / (x - 5)"), Err(failure));
    assert_eq!(line, "ERR stdout: \nstderr: thread 'main' panicked\nerrorcode: 101");
    assert_eq!(repl.function(), &before);
}

#[test]
fn rejected_input_is_gone_after_rollback() {
    let mut repl = Repl::new();
    let failure = Failure::CompileError(output("", "error", Some(1)));
    submit(&mut repl, statement("x +"), Err(failure));
    committed(&mut repl, statement("let y = 1"));
    assert_eq!(repl.function(), &InternalFunction::new().append(&statement("let y = 1")));
}

#[test]
fn result_and_error_lines_have_different_marks() {
    let mut repl = Repl::new();
    let ok = submit(&mut repl, statement("a"), Ok("out".to_string()));
    let err = submit(
        &mut repl,
        statement("b"),
        Err(Failure::RuntimeError(output("out", "", Some(1)))),
    );
    assert!(ok.starts_with("= "));
    assert!(err.starts_with("ERR "));
    assert!(!err.starts_with("= "));
    assert!(!ok.starts_with("ERR "));
}

#[test]
fn remove_lines_truncates_and_shows_the_program() {
    let mut repl = Repl::new();
    committed(&mut repl, statement("let x = 5"));
    committed(&mut repl, probe("x"));
    committed(&mut repl, statement("let y = 6"));
    let text = shown(repl.process_command(ReplCommand::RemoveLines(2), None));
    assert_eq!(repl.function().unit_count(), 1);
    assert_eq!(text, repl.function().file_contents());
    assert_eq!(text, format!("{}let x = 5; counter += 1;\n}}", PROLOGUE_1));
}

#[test]
fn remove_lines_zero_only_shows_the_program() {
    let mut repl = Repl::new();
    committed(&mut repl, statement("let x = 5"));
    let before = repl.function().clone();
    let text = shown(repl.process_command(ReplCommand::RemoveLines(0), None));
    assert_eq!(repl.function(), &before);
    assert_eq!(text, before.file_contents());
}

#[test]
fn remove_lines_beyond_the_end_only_shows_the_program() {
    let mut repl = Repl::new();
    committed(&mut repl, statement("let x = 5"));
    let before = repl.function().clone();
    let text = shown(repl.process_command(ReplCommand::RemoveLines(9), None));
    assert_eq!(repl.function(), &before);
    assert_eq!(text, before.file_contents());
}

#[test]
fn statement_probe_failure_and_delete_in_one_session() {
    let mut history = MemHistory::new();
    let mut input = Input::new();
    let mut repl = Repl::new();

    let command = input.read(Some("x = 5".to_string()), &mut history);
    assert_eq!(command, statement("x = 5"));
    let candidate = candidate_of(repl.process_command(command, input.pending()));
    assert_eq!(compile_outcome(output("", "", Some(0))), Ok(()));
    let line = repl.conclude(candidate, execute_outcome(output("", "", Some(0))));
    assert_eq!(line, "= ");
    assert_eq!(repl.function().unit_count(), 1);

    let command = input.read(Some(":x".to_string()), &mut history);
    assert_eq!(command, probe("x"));
    let candidate = candidate_of(repl.process_command(command, input.pending()));
    let line = repl.conclude(candidate, execute_outcome(output("5\n", "", Some(0))));
    assert_eq!(line, "= 5\n");
    assert_eq!(repl.function().unit_count(), 2);

    let command = input.read(Some("x +".to_string()), &mut history);
    assert_eq!(command, statement("x +"));
    let candidate = candidate_of(repl.process_command(command, input.pending()));
    assert_eq!(candidate.unit_count(), 3);
    let verdict = compile_outcome(output("", "error: expected expression, found `;`", Some(1)));
    let failure = verdict.unwrap_err();
    let line = repl.conclude(candidate, Err(failure));
    assert!(line.starts_with("ERR "));
    assert_eq!(repl.function().unit_count(), 2);

    let command = input.read(Some("%d 2".to_string()), &mut history);
    assert_eq!(command, ReplCommand::RemoveLines(2));
    let text = shown(repl.process_command(command, input.pending()));
    assert_eq!(repl.function().unit_count(), 1);
    assert_eq!(text, format!("{}x = 5; counter += 1;\n}}", PROLOGUE_1));
    assert!(!text.contains("println!"));
    assert_eq!(history.len(), 4);
}

#[test]
fn continuation_commits_exactly_one_unit() {
    let mut history = MemHistory::new();
    let mut input = Input::new();
    let mut repl = Repl::new();
    let mut steps = Vec::new();
    for line in ["{{", "let a = 1;", "let b = a + 1", "}}"] {
        let command = input.read(Some(line.to_string()), &mut history);
        steps.push(repl.process_command(command, input.pending()));
    }
    let last = steps.pop().unwrap();
    assert_eq!(steps, vec![Step::Continue, Step::Continue, Step::Continue]);
    let candidate = candidate_of(last);
    assert_eq!(candidate.unit_count(), 1);
    repl.conclude(candidate, Ok(String::new()));
    assert_eq!(repl.function().unit_count(), 1);
    assert_eq!(
        repl.function().file_contents(),
        format!("{}let a = 1;\nlet b = a + 1; counter += 1;\n}}", PROLOGUE_1)
    );
    assert_eq!(history.len(), 1);
}

#[test]
fn end_of_input_ends_the_session() {
    let mut history = MemHistory::new();
    let mut input = Input::new();
    let mut repl = Repl::new();
    let command = input.read(None, &mut history);
    assert_eq!(repl.process_command(command, input.pending()), Step::Exit);
}
