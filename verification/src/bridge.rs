//! The decisions of a build-and-run attempt.
//!
//! An attempt stages the program text, runs the compiler on it and, if that
//! succeeded, runs the binary. Running the two commands is the caller's part.
//! What each of them left behind is judged here: whether the attempt goes on,
//! and what it hands back in the end.

use vstd::prelude::*;
use vstd::string::*;
use crate::text::{signed_decimal, signed_decimal_string};

verus! {

/// What a command that ran to its end left behind: what it wrote to its
/// standard output and to its standard error, and its exit code; no code if a
/// signal ended it.
#[derive(Debug, PartialEq, Eq)]
pub struct ProcessOutput {
    pub stdout: String,
    pub stderr: String,
    pub status: Option<i32>,
}

/// A command's output with its texts as sequences of characters.
pub struct OutputView {
    pub stdout: Seq<char>,
    pub stderr: Seq<char>,
    pub status: Option<i32>,
}

impl View for ProcessOutput {
    type V = OutputView;

    open spec fn view(&self) -> OutputView {
        OutputView { stdout: self.stdout@, stderr: self.stderr@, status: self.status }
    }
}

/// Why an attempt failed, with what the failing command left behind.
#[derive(Debug, PartialEq, Eq)]
pub enum Failure {
    /// The compiler rejected the program.
    CompileError(ProcessOutput),
    /// The program was built, ran, and did not exit with code zero.
    RuntimeError(ProcessOutput),
}

/// A failure with its texts as sequences of characters.
pub enum FailureView {
    CompileError(OutputView),
    RuntimeError(OutputView),
}

impl View for Failure {
    type V = FailureView;

    open spec fn view(&self) -> FailureView {
        match self {
            Failure::CompileError(output) => FailureView::CompileError(output@),
            Failure::RuntimeError(output) => FailureView::RuntimeError(output@),
        }
    }
}

/// A command succeeded if it exited with code zero.
pub open spec fn succeeded(output: OutputView) -> bool {
    output.status == Some(0i32)
}

/// How the exit status is written: the code as a decimal numeral, or `none`
/// where there is no code.
pub open spec fn status_text(status: Option<i32>) -> Seq<char> {
    match status {
        Some(code) => signed_decimal(code as int),
        None => "none"@,
    }
}

/// The diagnostic text of a failed command: its standard output, its
/// standard error and its exit status, each under its label.
pub open spec fn diagnostic_text(output: OutputView) -> Seq<char> {
    "stdout: "@ + output.stdout + "\nstderr: "@ + output.stderr + "\nerrorcode: "@ + status_text(
        output.status,
    )
}

/// What the compiler's run means for the attempt: it goes on if the compiler
/// succeeded, and fails with a compile error that carries the output if not.
pub open spec fn compile_verdict(output: OutputView) -> Result<(), FailureView> {
    if succeeded(output) {
        Ok(())
    } else {
        Err(FailureView::CompileError(output))
    }
}

/// What the binary's run means for the attempt: its standard output if it
/// succeeded, and a runtime error that carries the output if not.
pub open spec fn execute_verdict(output: OutputView) -> Result<Seq<char>, FailureView> {
    if succeeded(output) {
        Ok(output.stdout)
    } else {
        Err(FailureView::RuntimeError(output))
    }
}

/// The outcome of an attempt with its texts as sequences of characters.
pub open spec fn outcome_view(outcome: Result<String, Failure>) -> Result<Seq<char>, FailureView> {
    match outcome {
        Ok(output) => Ok(output@),
        Err(failure) => Err(failure@),
    }
}

impl ProcessOutput {
    /// Whether the command exited with code zero.
    pub fn success(&self) -> (yes: bool)
        ensures
            yes == succeeded(self@),
    {
        match self.status {
            Some(code) => code == 0,
            None => false,
        }
    }

    /// The diagnostic text: standard output, standard error and exit status,
    /// each under its label.
    pub fn diagnostic(&self) -> (text: String)
        ensures
            text@ == diagnostic_text(self@),
    {
        let mut text = String::from_str("stdout: ");
        text.append(self.stdout.as_str());
        text.append("\nstderr: ");
        text.append(self.stderr.as_str());
        text.append("\nerrorcode: ");
        match self.status {
            Some(code) => {
                text.append(signed_decimal_string(code).as_str());
            },
            None => {
                text.append("none");
            },
        }
        text
    }
}

impl Failure {
    /// What the failing command left behind.
    pub fn output(&self) -> (output: &ProcessOutput)
        ensures
            self@ == FailureView::CompileError(output@) || self@ == FailureView::RuntimeError(
                output@,
            ),
    {
        match self {
            Failure::CompileError(output) => output,
            Failure::RuntimeError(output) => output,
        }
    }
}

/// Judges the compiler's run. On `Ok` the binary is there to be run; on `Err`
/// the attempt is over.
pub fn compile_outcome(output: ProcessOutput) -> (verdict: Result<(), Failure>)
    ensures
        match verdict {
            Ok(_) => compile_verdict(output@) is Ok,
            Err(failure) => compile_verdict(output@) == Err::<(), FailureView>(failure@),
        },
{
    if output.success() {
        Ok(())
    } else {
        Err(Failure::CompileError(output))
    }
}

/// Judges the binary's run, which ends the attempt: with the captured
/// standard output, or with the failure.
pub fn execute_outcome(output: ProcessOutput) -> (outcome: Result<String, Failure>)
    ensures
        outcome_view(outcome) == execute_verdict(output@),
{
    if output.success() {
        Ok(output.stdout)
    } else {
        Err(Failure::RuntimeError(output))
    }
}

} // verus!
