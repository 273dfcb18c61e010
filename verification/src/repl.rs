//! The session controller: it owns the current snapshot and decides, command
//! by command, what is to be done and what becomes of the snapshot.
//!
//! A command that adds a unit does not change the snapshot at once. The
//! controller hands out a candidate, the caller builds and runs it, and the
//! controller takes the candidate back with the outcome: on success the
//! candidate becomes the current snapshot, on failure it is dropped and the
//! snapshot stays as it was.

use vstd::prelude::*;
use vstd::string::*;
use crate::bridge::{diagnostic_text, outcome_view, Failure, FailureView};
use crate::function::{
    appendable,
    prologue,
    rendered,
    truncated,
    unit_text,
    InternalFunction,
};
use crate::input::{CommandView, ReplCommand};
use crate::text::{concat, text_of};

verus! {

/// What the caller is to do after a command.
#[derive(Debug, PartialEq, Eq)]
pub enum Step {
    /// Read the next line.
    Continue,
    /// End the session.
    Exit,
    /// Show the text to the user, then read the next line.
    Show(String),
    /// Build and run the candidate, then hand it back with the outcome.
    Run(InternalFunction),
}

/// A step with its texts as sequences of characters.
pub enum StepView {
    Continue,
    Exit,
    Show(Seq<char>),
    Run(Seq<Seq<char>>),
}

impl View for Step {
    type V = StepView;

    open spec fn view(&self) -> StepView {
        match self {
            Step::Continue => StepView::Continue,
            Step::Exit => StepView::Exit,
            Step::Show(text) => StepView::Show(text@),
            Step::Run(candidate) => StepView::Run(candidate@),
        }
    }
}

/// What is shown for the program: its text and, on a line of its own after
/// it, the text of the continuation that is open, if one is.
pub open spec fn listing(units: Seq<Seq<char>>, pending: Option<Seq<char>>) -> Seq<char> {
    match pending {
        Some(text) => rendered(units) + "\n"@ + text,
        None => rendered(units),
    }
}

/// The candidate that a unit-adding command asks to try: the units with the
/// command's unit after them.
pub open spec fn candidate(units: Seq<Seq<char>>, command: CommandView) -> Seq<Seq<char>>
    recommends
        appendable(command),
{
    units.push(unit_text(command))
}

/// The current units after a command was processed. Only deleting lines
/// changes them.
pub open spec fn units_after(units: Seq<Seq<char>>, command: CommandView) -> Seq<Seq<char>> {
    match command {
        CommandView::RemoveLines(n) => truncated(units, n as int),
        _ => units,
    }
}

/// The step that a command asks for.
pub open spec fn step_for(
    units: Seq<Seq<char>>,
    command: CommandView,
    pending: Option<Seq<char>>,
) -> StepView {
    match command {
        CommandView::PrintCode => StepView::Show(listing(units, pending)),
        CommandView::RemoveLines(n) => StepView::Show(
            listing(truncated(units, n as int), pending),
        ),
        CommandView::Nothing => StepView::Continue,
        CommandView::Exit => StepView::Exit,
        CommandView::AddExpression(_) => StepView::Run(candidate(units, command)),
        CommandView::PrintValue(_) => StepView::Run(candidate(units, command)),
    }
}

/// The current units after an attempt: the candidate's if it succeeded, the
/// same as before if it failed.
pub open spec fn units_concluded(
    units: Seq<Seq<char>>,
    tried: Seq<Seq<char>>,
    outcome: Result<Seq<char>, FailureView>,
) -> Seq<Seq<char>> {
    if outcome is Ok {
        tried
    } else {
        units
    }
}

/// The line that tells the user how an attempt ended: the captured output
/// after the result mark, or the diagnostic text after the error mark.
pub open spec fn report(outcome: Result<Seq<char>, FailureView>) -> Seq<char> {
    match outcome {
        Ok(output) => "= "@ + output,
        Err(FailureView::CompileError(output)) => "ERR "@ + diagnostic_text(output),
        Err(FailureView::RuntimeError(output)) => "ERR "@ + diagnostic_text(output),
    }
}

/// The session controller.
pub struct Repl {
    function: InternalFunction,
}

impl View for Repl {
    type V = Seq<Seq<char>>;

    closed spec fn view(&self) -> Seq<Seq<char>> {
        self.function@
    }
}

impl Repl {
    /// A session with the empty program.
    pub fn new() -> (repl: Repl)
        ensures
            repl@ == Seq::<Seq<char>>::empty(),
    {
        Repl { function: InternalFunction::new() }
    }

    /// The current snapshot.
    pub fn function(&self) -> (function: &InternalFunction)
        ensures
            function@ == self@,
    {
        &self.function
    }

    /// Processes one command. `pending` is the text of the continuation that
    /// is open, if one is; it is shown after the program.
    ///
    /// Only deleting lines changes the current snapshot here. A command that
    /// adds a unit leaves it as it is and asks for the candidate to be tried;
    /// `conclude` then settles what becomes of it.
    pub fn process_command(
        &mut self,
        command: ReplCommand,
        pending: Option<String>,
    ) -> (step: Step)
        ensures
            step@ == step_for(old(self)@, command@, text_of(pending)),
            final(self)@ == units_after(old(self)@, command@),
    {
        match command {
            ReplCommand::PrintCode => Step::Show(self.show(pending)),
            ReplCommand::RemoveLines(n) => {
                self.function = self.function.truncate(n);
                Step::Show(self.show(pending))
            },
            ReplCommand::Nothing => Step::Continue,
            ReplCommand::Exit => Step::Exit,
            ReplCommand::AddExpression(_) => Step::Run(self.function.append(&command)),
            ReplCommand::PrintValue(_) => Step::Run(self.function.append(&command)),
        }
    }

    /// Takes back the candidate of an attempt with its outcome. On success the
    /// candidate becomes the current snapshot; on failure the current snapshot
    /// stays and the candidate is dropped. Either way the line to tell the
    /// user is handed back.
    pub fn conclude(
        &mut self,
        tried: InternalFunction,
        outcome: Result<String, Failure>,
    ) -> (line: String)
        ensures
            final(self)@ == units_concluded(old(self)@, tried@, outcome_view(outcome)),
            line@ == report(outcome_view(outcome)),
    {
        match outcome {
            Ok(output) => {
                self.function = tried;
                let mut line = String::from_str("= ");
                line.append(output.as_str());
                line
            },
            Err(failure) => {
                let mut line = String::from_str("ERR ");
                line.append(failure.output().diagnostic().as_str());
                line
            },
        }
    }

    fn show(&self, pending: Option<String>) -> (text: String)
        ensures
            text@ == listing(self@, text_of(pending)),
    {
        let mut text = self.function.file_contents();
        match pending {
            Some(open) => {
                text.append("\n");
                text.append(open.as_str());
            },
            None => {},
        }
        text
    }
}

/// A failed attempt leaves the session where it was: after a unit-adding
/// command is processed and its candidate comes back with a failure, the
/// current units, their number and the program text are those from before the
/// command.
pub proof fn lemma_rollback_preserves_state(
    units: Seq<Seq<char>>,
    command: CommandView,
    pending: Option<Seq<char>>,
    failure: FailureView,
)
    requires
        appendable(command),
    ensures
        step_for(units, command, pending) == StepView::Run(candidate(units, command)),
        ({
            let kept = units_concluded(
                units_after(units, command),
                candidate(units, command),
                Err::<Seq<char>, FailureView>(failure),
            );
            &&& kept == units
            &&& kept.len() == units.len()
            &&& rendered(kept) == rendered(units)
        }),
{
}

/// A successful attempt advances the session by one unit: after a unit-adding
/// command is processed and its candidate comes back with success, there is
/// one unit more, the units from before stand unchanged at the front, the
/// command's unit stands last, and the program text holds the text of the old
/// units followed by the text of the new one.
pub proof fn lemma_commit_advances_state(
    units: Seq<Seq<char>>,
    command: CommandView,
    pending: Option<Seq<char>>,
    output: Seq<char>,
)
    requires
        appendable(command),
    ensures
        step_for(units, command, pending) == StepView::Run(candidate(units, command)),
        ({
            let committed = units_concluded(
                units_after(units, command),
                candidate(units, command),
                Ok::<Seq<char>, FailureView>(output),
            );
            &&& committed.len() == units.len() + 1
            &&& committed.take(units.len() as int) == units
            &&& committed.last() == unit_text(command)
            &&& concat(committed) == concat(units) + unit_text(command)
            &&& rendered(committed) == prologue(units.len() + 1) + concat(units) + unit_text(
                command,
            ) + "}"@
        }),
{
    let committed = candidate(units, command);
    assert(committed.drop_last() =~= units);
}

} // verus!
