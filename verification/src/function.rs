//! The program snapshot: the units accepted so far, and the program text that
//! they make.
//!
//! A snapshot is a value. Appending and truncating hand back a new snapshot
//! and leave the old one as it was, so a candidate that fails to build or run
//! is simply dropped.
//!
//! The generated program counts its units while it runs: `counter` starts at
//! zero and every unit ends by adding one to it, so a unit finds in `counter`
//! the number of units before it. `unit_count` holds the number of units of
//! the whole program. A value probe prints only where `counter + 1` equals
//! `unit_count`, that is in the last unit: when the program is run again with
//! more units after it, the probe stays silent.

use vstd::prelude::*;
use vstd::string::*;
use crate::input::{CommandView, ReplCommand};
use crate::text::{concat, decimal, decimal_string, texts};

verus! {

/// Whether the command adds a unit to the program.
pub open spec fn appendable(command: CommandView) -> bool {
    command is AddExpression || command is PrintValue
}

/// The step of the counter, which ends every unit.
pub open spec fn counter_step() -> Seq<char> {
    " counter += 1;\n"@
}

/// The unit generated for a statement: the statement, its terminator, and
/// the step of the counter.
pub open spec fn statement_unit(stmt: Seq<char>) -> Seq<char> {
    stmt + ";"@ + counter_step()
}

/// The print of an expression's textual representation, under the guard that
/// lets it run only in the last unit of the program.
pub open spec fn guarded_print(expr: Seq<char>) -> Seq<char> {
    "if counter + 1 == unit_count { println!(\"{:?}\", { "@ + expr + " }); }"@
}

/// The unit generated for a value probe: the guarded print, and the step of
/// the counter.
pub open spec fn probe_unit(expr: Seq<char>) -> Seq<char> {
    guarded_print(expr) + counter_step()
}

/// The unit generated for a command that adds one.
pub open spec fn unit_text(command: CommandView) -> Seq<char>
    recommends
        appendable(command),
{
    match command {
        CommandView::AddExpression(stmt) => statement_unit(stmt),
        CommandView::PrintValue(expr) => probe_unit(expr),
        _ => Seq::empty(),
    }
}

/// What stands before the units in the program text: the opening of the entry
/// point, the number of units, and the counter at zero.
pub open spec fn prologue(count: nat) -> Seq<char> {
    "fn main() { let unit_count: usize = "@ + decimal(count)
        + "; let mut counter: usize = 0;\n"@
}

/// The program text of the units: prologue, the units in order, and the
/// closing of the entry point.
pub open spec fn rendered(units: Seq<Seq<char>>) -> Seq<char> {
    prologue(units.len()) + concat(units) + "}"@
}

/// The units left when line `n` and all after it are deleted: the first
/// `n - 1`. A line below one, and a line that is not there, delete nothing.
pub open spec fn truncated(units: Seq<Seq<char>>, n: int) -> Seq<Seq<char>> {
    if 1 <= n <= units.len() {
        units.take(n - 1)
    } else {
        units
    }
}

/// The accumulated program: the generated text of each accepted unit, in the
/// order in which they were accepted.
#[derive(Debug, PartialEq, Eq)]
pub struct InternalFunction {
    body: Vec<String>,
}

impl View for InternalFunction {
    type V = Seq<Seq<char>>;

    closed spec fn view(&self) -> Seq<Seq<char>> {
        texts(self.body@)
    }
}

impl Clone for InternalFunction {
    fn clone(&self) -> (copy: InternalFunction)
        ensures
            copy@ == self@,
    {
        InternalFunction { body: self.body.clone() }
    }
}

impl InternalFunction {
    /// The empty program.
    pub fn new() -> (function: InternalFunction)
        ensures
            function@ == Seq::<Seq<char>>::empty(),
    {
        InternalFunction { body: Vec::new() }
    }

    /// The number of units.
    pub fn unit_count(&self) -> (count: usize)
        ensures
            count == self@.len(),
    {
        self.body.len()
    }

    /// The program text.
    pub fn file_contents(&self) -> (text: String)
        ensures
            text@ == rendered(self@),
    {
        let mut text = String::from_str("fn main() { let unit_count: usize = ");
        text.append(decimal_string(self.body.len() as u64).as_str());
        text.append("; let mut counter: usize = 0;\n");
        let mut i: usize = 0;
        while i < self.body.len()
            invariant
                i <= self.body.len(),
                text@ == prologue(self@.len()) + concat(texts(self.body@).take(i as int)),
            decreases self.body.len() - i,
        {
            text.append(self.body[i].as_str());
            proof {
                let units = texts(self.body@);
                assert(units.take(i + 1).drop_last() =~= units.take(i as int));
            }
            i = i + 1;
        }
        assert(texts(self.body@).take(i as int) =~= texts(self.body@));
        text.append("}");
        text
    }

    /// The program with one more unit, whose generated text is `line`.
    pub fn append_line(&self, line: String) -> (function: InternalFunction)
        ensures
            function@ == self@.push(line@),
    {
        let mut body = self.body.clone();
        body.push(line);
        InternalFunction { body }
    }

    /// The program with the unit that the command generates added at its end.
    pub fn append(&self, command: &ReplCommand) -> (function: InternalFunction)
        requires
            appendable(command@),
        ensures
            function@ == self@.push(unit_text(command@)),
    {
        match command {
            ReplCommand::AddExpression(stmt) => {
                let mut unit = stmt.clone();
                unit.append(";");
                unit.append(" counter += 1;\n");
                self.append_line(unit)
            },
            ReplCommand::PrintValue(expr) => {
                let mut unit = String::from_str(
                    "if counter + 1 == unit_count { println!(\"{:?}\", { ",
                );
                unit.append(expr.as_str());
                unit.append(" }); }");
                unit.append(" counter += 1;\n");
                self.append_line(unit)
            },
            _ => unreached(),
        }
    }

    /// The program without line `n` and all after it. Line zero, and a line
    /// that is not there, leave the program whole.
    pub fn truncate(&self, n: u32) -> (function: InternalFunction)
        ensures
            function@ == truncated(self@, n as int),
    {
        let mut body = self.body.clone();
        if n >= 1 {
            body.truncate((n - 1) as usize);
        }
        InternalFunction { body }
    }
}

/// Whether the guard of a value probe holds when the probe stands at
/// `position`, counted from zero, in a program of `count` units: the counter
/// then holds `position` and `unit_count` holds `count`.
pub open spec fn guard_holds(position: nat, count: nat) -> bool {
    position + 1 == count
}

/// The number of value probes among the first `end` units whose guard holds,
/// in a program whose unit at a position is a value probe where `probes`
/// holds `true` there.
pub open spec fn printing_probes(probes: Seq<bool>, end: nat) -> nat
    decreases end,
{
    if end == 0 {
        0
    } else {
        let position = (end - 1) as nat;
        let prints = position < probes.len() && probes[position as int] && guard_holds(
            position,
            probes.len(),
        );
        printing_probes(probes, position) + if prints {
            1nat
        } else {
            0nat
        }
    }
}

/// However many value probes a program holds, the guard holds for one of them
/// at most: for the last unit, if that is a value probe.
pub proof fn lemma_only_newest_probe_prints(probes: Seq<bool>, end: nat)
    requires
        end <= probes.len(),
    ensures
        printing_probes(probes, end) == if end == probes.len() && end > 0 && probes.last() {
            1nat
        } else {
            0nat
        },
    decreases end,
{
    if end > 0 {
        lemma_only_newest_probe_prints(probes, (end - 1) as nat);
    }
}

/// The program text is a function of the units alone: two snapshots with the
/// same units render to the same text, character for character.
pub proof fn lemma_render_deterministic(a: InternalFunction, b: InternalFunction)
    requires
        a@ == b@,
    ensures
        rendered(a@) == rendered(b@),
{
}

/// Truncating at a line that is there keeps exactly the units before it, as
/// they were and in their order; truncating at line zero, or at a line below
/// zero, keeps everything.
pub proof fn lemma_truncate(units: Seq<Seq<char>>, n: int)
    ensures
        1 <= n <= units.len() ==> truncated(units, n).len() == n - 1,
        1 <= n <= units.len() ==> truncated(units, n).is_prefix_of(units),
        n <= 0 ==> truncated(units, n) == units,
        truncated(units, n).len() <= units.len(),
{
}

} // verus!
