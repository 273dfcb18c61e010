//! The line classifier and its continuation buffer.
//!
//! The prefix scheme is fixed here. A line that starts with `%` is a
//! meta-command: `%d` followed by a space and a positive number asks to delete
//! lines, any other `%` line asks to show the program. A line that starts with
//! `:` and holds more than that probes the value of the rest. A line that
//! starts with `{{` opens a continuation, which gathers every following line
//! until one that starts with `}}`; `{{:` opens it for a value probe, `{{`
//! alone for a statement. Whatever else is not empty is a statement.

use vstd::prelude::*;
use vstd::string::*;
use rustyline::history::MemHistory;
use crate::history::{history_entries, history_limit, record, recorded};
use crate::text::{join_lines, text_of, texts};

verus! {

/// First character of every meta-command.
pub const META_MARKER: char = '%';

/// Second character of the meta-command that deletes lines.
pub const DELETE_MARKER: char = 'd';

/// First character of a value probe.
pub const VALUE_MARKER: char = ':';

/// The character that, written twice, opens a continuation.
pub const OPEN_MARKER: char = '{';

/// The character that, written twice, closes a continuation.
pub const CLOSE_MARKER: char = '}';

/// What separates a meta-command from its argument.
pub const FIELD_SEPARATOR: char = ' ';

/// What one input line asks of the session.
#[derive(Debug, PartialEq, Eq)]
pub enum ReplCommand {
    /// Evaluate the expression and print its textual representation.
    PrintValue(String),
    /// Append the statement as it is.
    AddExpression(String),
    /// Show the generated program.
    PrintCode,
    /// End the session.
    Exit,
    /// Nothing to do.
    Nothing,
    /// Keep the lines before this one, drop it and all after it, then show the
    /// program.
    RemoveLines(u32),
}

/// A command with its texts as sequences of characters.
pub enum CommandView {
    PrintValue(Seq<char>),
    AddExpression(Seq<char>),
    PrintCode,
    Exit,
    Nothing,
    RemoveLines(u32),
}

impl View for ReplCommand {
    type V = CommandView;

    open spec fn view(&self) -> CommandView {
        match self {
            ReplCommand::PrintValue(expr) => CommandView::PrintValue(expr@),
            ReplCommand::AddExpression(stmt) => CommandView::AddExpression(stmt@),
            ReplCommand::PrintCode => CommandView::PrintCode,
            ReplCommand::Exit => CommandView::Exit,
            ReplCommand::Nothing => CommandView::Nothing,
            ReplCommand::RemoveLines(n) => CommandView::RemoveLines(*n),
        }
    }
}

impl Clone for ReplCommand {
    fn clone(&self) -> (copy: ReplCommand)
        ensures
            copy@ == self@,
    {
        match self {
            ReplCommand::PrintValue(expr) => ReplCommand::PrintValue(expr.clone()),
            ReplCommand::AddExpression(stmt) => ReplCommand::AddExpression(stmt.clone()),
            ReplCommand::PrintCode => ReplCommand::PrintCode,
            ReplCommand::Exit => ReplCommand::Exit,
            ReplCommand::Nothing => ReplCommand::Nothing,
            ReplCommand::RemoveLines(n) => ReplCommand::RemoveLines(*n),
        }
    }
}

/// What a continuation becomes when it is closed.
#[derive(Clone, Copy, Debug, PartialEq, Eq, Structural)]
pub enum BufferKind {
    /// A value probe.
    Value,
    /// A statement.
    Expression,
}

/// An open continuation: its kind, fixed when it was opened, and the lines
/// gathered since.
pub struct ContinuationBuffer {
    kind: BufferKind,
    lines: Vec<String>,
}

/// An open continuation with its lines as sequences of characters.
pub struct BufferView {
    pub kind: BufferKind,
    pub lines: Seq<Seq<char>>,
}

impl View for ContinuationBuffer {
    type V = BufferView;

    closed spec fn view(&self) -> BufferView {
        BufferView { kind: self.kind, lines: texts(self.lines@) }
    }
}

/// The value that the character writes as a decimal digit, if it is one of
/// the ten digits from `0` to `9`.
pub open spec fn digit_value(c: char) -> Option<nat> {
    if '0' <= c <= '9' {
        Some((c as nat - '0' as nat) as nat)
    } else {
        None
    }
}

/// The number that a non-empty run of decimal digits writes; `None` for the
/// empty text and for a text with anything but digits in it.
pub open spec fn numeral_value(s: Seq<char>) -> Option<nat>
    decreases s.len(),
{
    if s.len() == 0 {
        None
    } else if s.len() == 1 {
        digit_value(s[0])
    } else {
        match (numeral_value(s.drop_last()), digit_value(s.last())) {
            (Some(high), Some(low)) => Some(high * 10 + low),
            _ => None,
        }
    }
}

/// The argument of a delete command: decimal digits, with one `+` allowed
/// before them, that write a number from 1 to `u32::MAX`.
pub open spec fn line_number(s: Seq<char>) -> Option<u32> {
    let digits = if s.len() > 0 && s[0] == '+' {
        s.drop_first()
    } else {
        s
    };
    match numeral_value(digits) {
        Some(n) => if 1 <= n <= u32::MAX {
            Some(n as u32)
        } else {
            None
        },
        None => None,
    }
}

/// The first position at or after `from` that holds a field separator, or the
/// length of the text if there is none.
pub open spec fn separator_from(s: Seq<char>, from: int) -> int
    decreases s.len() - from,
{
    if from < 0 || from >= s.len() {
        s.len() as int
    } else if s[from] == FIELD_SEPARATOR {
        from
    } else {
        separator_from(s, from + 1)
    }
}

/// The second field of a line cut at every field separator: what stands
/// between the first separator and the next one, or the end of the line.
/// `None` when the line holds no separator.
pub open spec fn argument_field(s: Seq<char>) -> Option<Seq<char>> {
    let first = separator_from(s, 0);
    if first >= s.len() {
        None
    } else {
        Some(s.subrange(first + 1, separator_from(s, first + 1)))
    }
}

/// Whether the line starts with the two given characters.
pub open spec fn starts_with_pair(s: Seq<char>, a: char, b: char) -> bool {
    s.len() >= 2 && s[0] == a && s[1] == b
}

/// The outcome of classifying one line: the command, the continuation that is
/// open afterwards, and the text to enter into the recall history, if any.
pub struct Classified {
    pub command: CommandView,
    pub buffer: Option<BufferView>,
    pub history: Option<Seq<char>>,
}

/// How a line is classified while no continuation is open. The patterns are
/// tried in this order and the first that fits decides: delete command, show
/// command, value probe, opening of a continuation, empty line, statement.
pub open spec fn classify_fresh(line: Seq<char>) -> Classified {
    if starts_with_pair(line, META_MARKER, DELETE_MARKER) {
        match argument_field(line) {
            Some(field) => match line_number(field) {
                Some(n) => Classified {
                    command: CommandView::RemoveLines(n),
                    buffer: None,
                    history: Some(line),
                },
                None => Classified { command: CommandView::Nothing, buffer: None, history: None },
            },
            None => Classified { command: CommandView::Nothing, buffer: None, history: None },
        }
    } else if line.len() >= 1 && line[0] == META_MARKER {
        Classified { command: CommandView::PrintCode, buffer: None, history: Some(line) }
    } else if line.len() >= 2 && line[0] == VALUE_MARKER {
        Classified {
            command: CommandView::PrintValue(line.subrange(1, line.len() as int)),
            buffer: None,
            history: Some(line),
        }
    } else if starts_with_pair(line, OPEN_MARKER, OPEN_MARKER) {
        let kind = if line.len() >= 3 && line[2] == VALUE_MARKER {
            BufferKind::Value
        } else {
            BufferKind::Expression
        };
        Classified {
            command: CommandView::Nothing,
            buffer: Some(BufferView { kind, lines: Seq::empty() }),
            history: None,
        }
    } else if line.len() == 0 {
        Classified { command: CommandView::Nothing, buffer: None, history: None }
    } else {
        Classified { command: CommandView::AddExpression(line), buffer: None, history: Some(line) }
    }
}

/// Whether the line closes a continuation.
pub open spec fn closes(line: Seq<char>) -> bool {
    starts_with_pair(line, CLOSE_MARKER, CLOSE_MARKER)
}

/// The lines of a continuation that a closing line ends: those gathered, and
/// after them what the closing line holds behind its marker, if anything.
pub open spec fn closed_lines(gathered: Seq<Seq<char>>, line: Seq<char>) -> Seq<Seq<char>> {
    if line.len() > 2 {
        gathered.push(line.subrange(2, line.len() as int))
    } else {
        gathered
    }
}

/// How a line is classified while a continuation is open. A closing line
/// turns the gathered lines, joined by line breaks, into one command of the
/// continuation's kind; any other line is gathered.
pub open spec fn classify_continuation(line: Seq<char>, open: BufferView) -> Classified {
    if closes(line) {
        let joined = join_lines(closed_lines(open.lines, line));
        Classified {
            command: match open.kind {
                BufferKind::Value => CommandView::PrintValue(joined),
                BufferKind::Expression => CommandView::AddExpression(joined),
            },
            buffer: None,
            history: Some(joined),
        }
    } else {
        Classified {
            command: CommandView::Nothing,
            buffer: Some(BufferView { kind: open.kind, lines: open.lines.push(line) }),
            history: None,
        }
    }
}

/// The classification of a line, given the continuation that is open.
pub open spec fn classify(line: Seq<char>, buffer: Option<BufferView>) -> Classified {
    match buffer {
        Some(open) => classify_continuation(line, open),
        None => classify_fresh(line),
    }
}

/// The classification of what the line reader delivered: a line, or `None`
/// when it has no more lines or was interrupted, which ends the session and
/// leaves the continuation as it is.
pub open spec fn classify_event(
    event: Option<Seq<char>>,
    buffer: Option<BufferView>,
) -> Classified {
    match event {
        Some(line) => classify(line, buffer),
        None => Classified { command: CommandView::Exit, buffer, history: None },
    }
}

/// The prompt to show: a longer one while a continuation is open.
pub open spec fn prompt(buffer: Option<BufferView>) -> Seq<char> {
    if buffer is Some {
        ">>> "@
    } else {
        ">> "@
    }
}

/// The continuation that is open after the lines were classified one after
/// another, with `buffer` open before the first.
pub open spec fn buffer_after(
    lines: Seq<Seq<char>>,
    buffer: Option<BufferView>,
) -> Option<BufferView>
    decreases lines.len(),
{
    if lines.len() == 0 {
        buffer
    } else {
        classify(lines.last(), buffer_after(lines.drop_last(), buffer)).buffer
    }
}

/// An open continuation gathers the lines that do not close it, in order,
/// and none of them yields a command.
pub proof fn lemma_continuation_gathers(open: BufferView, lines: Seq<Seq<char>>)
    requires
        forall|i: int| 0 <= i < lines.len() ==> !closes(#[trigger] lines[i]),
    ensures
        buffer_after(lines, Some(open)) == Some(
            BufferView { kind: open.kind, lines: open.lines + lines },
        ),
        forall|i: int|
            0 <= i < lines.len() ==> classify(
                #[trigger] lines[i],
                buffer_after(lines.take(i), Some(open)),
            ).command is Nothing,
    decreases lines.len(),
{
    if lines.len() == 0 {
    } else {
        let front = lines.drop_last();
        lemma_continuation_gathers(open, front);
        assert((open.lines + front).push(lines.last()) =~= open.lines + lines);
        assert forall|i: int| 0 <= i < lines.len() implies classify(
            #[trigger] lines[i],
            buffer_after(lines.take(i), Some(open)),
        ).command is Nothing by {
            if i < front.len() {
                assert(lines.take(i) =~= front.take(i));
                assert(lines[i] == front[i]);
            } else {
                assert(lines.take(i) =~= front);
            }
        }
    }
}

/// A continuation yields exactly one command. The line that opens it yields
/// none, nor does any line gathered after it; the line that closes it yields
/// one command of the kind fixed at the opening, over all the gathered lines
/// joined by line breaks, and leaves no continuation open.
pub proof fn lemma_continuation_yields_one_command(
    opening: Seq<char>,
    lines: Seq<Seq<char>>,
    closing: Seq<char>,
)
    requires
        classify(opening, None).buffer is Some,
        forall|i: int| 0 <= i < lines.len() ==> !closes(#[trigger] lines[i]),
        closes(closing),
    ensures
        classify(opening, None).command is Nothing,
        forall|i: int|
            0 <= i < lines.len() ==> classify(
                #[trigger] lines[i],
                buffer_after(lines.take(i), classify(opening, None).buffer),
            ).command is Nothing,
        ({
            let opened = classify(opening, None).buffer;
            let last = classify(closing, buffer_after(lines, opened));
            let text = join_lines(closed_lines(lines, closing));
            &&& last.buffer is None
            &&& last.command == match opened->0.kind {
                BufferKind::Value => CommandView::PrintValue(text),
                BufferKind::Expression => CommandView::AddExpression(text),
            }
        }),
{
    let open = classify(opening, None).buffer->0;
    lemma_continuation_gathers(open, lines);
}

/// `separator_from` finds a separator, or the end, and passes over none.
pub proof fn lemma_separator_from(s: Seq<char>, from: int)
    requires
        0 <= from <= s.len(),
    ensures
        from <= separator_from(s, from) <= s.len(),
        separator_from(s, from) < s.len() ==> s[separator_from(s, from)] == FIELD_SEPARATOR,
        forall|k: int| from <= k < separator_from(s, from) ==> s[k] != FIELD_SEPARATOR,
    decreases s.len() - from,
{
    if from < s.len() && s[from] != FIELD_SEPARATOR {
        lemma_separator_from(s, from + 1);
    }
}

fn digit_of(c: char) -> (d: Option<u64>)
    ensures
        match d {
            Some(v) => digit_value(c) == Some(v as nat) && v < 10,
            None => digit_value(c) is None,
        },
{
    if '0' <= c && c <= '9' {
        Some(c as u64 - '0' as u64)
    } else {
        None
    }
}

/// Once a prefix of a text is no numeral, or writes a number above the
/// bound, the same holds of every longer prefix.
proof fn lemma_numeral_prefix(s: Seq<char>, k: int, bound: nat)
    requires
        1 <= k <= s.len(),
        match numeral_value(s.take(k)) {
            Some(v) => v > bound,
            None => true,
        },
    ensures
        match numeral_value(s) {
            Some(v) => v > bound,
            None => true,
        },
    decreases s.len() - k,
{
    if k < s.len() {
        assert(s.take(k + 1).drop_last() =~= s.take(k));
        lemma_numeral_prefix(s, k + 1, bound);
    } else {
        assert(s.take(k) =~= s);
    }
}

/// Reads the number that the characters of `s` from `start` to `end` write,
/// if it is no more than `u32::MAX`.
fn parse_numeral(s: &str, start: usize, end: usize) -> (r: Option<u32>)
    requires
        start <= end <= s@.len(),
    ensures
        r == match numeral_value(s@.subrange(start as int, end as int)) {
            Some(v) => if v <= u32::MAX {
                Some(v as u32)
            } else {
                None
            },
            None => None,
        },
{
    let ghost digits = s@.subrange(start as int, end as int);
    if start == end {
        return None;
    }
    let mut value: u64 = 0;
    let mut i: usize = start;
    while i < end
        invariant
            start <= i <= end <= s@.len(),
            digits == s@.subrange(start as int, end as int),
            value <= u32::MAX,
            i > start ==> numeral_value(digits.take(i - start)) == Some(value as nat),
            i == start ==> value == 0,
        decreases end - i,
    {
        let c = s.get_char(i);
        proof {
            assert(digits.take(i - start + 1).drop_last() =~= digits.take(i - start));
        }
        match digit_of(c) {
            Some(d) => {
                let next: u64 = value * 10 + d;
                if next > 0xffff_ffff {
                    proof {
                        lemma_numeral_prefix(digits, i - start + 1, u32::MAX as nat);
                    }
                    return None;
                }
                value = next;
            },
            None => {
                proof {
                    lemma_numeral_prefix(digits, i - start + 1, u32::MAX as nat);
                }
                return None;
            },
        }
        i = i + 1;
    }
    assert(digits.take(end - start) =~= digits);
    Some(value as u32)
}

/// Finds the first field separator of `s` at or after `from`; `len`, the
/// length of `s`, if there is none.
fn find_separator(s: &str, len: usize, from: usize) -> (at: usize)
    requires
        len == s@.len(),
        from <= len,
    ensures
        at == separator_from(s@, from as int),
{
    let mut i: usize = from;
    while i < len
        invariant
            from <= i <= len,
            len == s@.len(),
            separator_from(s@, from as int) == separator_from(s@, i as int),
        decreases len - i,
    {
        if s.get_char(i) == FIELD_SEPARATOR {
            return i;
        }
        i = i + 1;
    }
    i
}

/// Reads the argument of a delete command from its line.
fn delete_argument(s: &str, len: usize) -> (r: Option<u32>)
    requires
        len == s@.len(),
    ensures
        r == match argument_field(s@) {
            Some(field) => line_number(field),
            None => None,
        },
{
    let first = find_separator(s, len, 0);
    proof {
        lemma_separator_from(s@, 0);
    }
    if first >= len {
        return None;
    }
    let end = find_separator(s, len, first + 1);
    proof {
        lemma_separator_from(s@, first + 1);
    }
    let ghost field = s@.subrange(first + 1, end as int);
    let start = if first + 1 < end && s.get_char(first + 1) == '+' {
        first + 2
    } else {
        first + 1
    };
    proof {
        if first + 1 < end && s@[first + 1] == '+' {
            assert(field.drop_first() =~= s@.subrange(start as int, end as int));
        }
    }
    match parse_numeral(s, start, end) {
        Some(n) => if n >= 1 {
            Some(n)
        } else {
            None
        },
        None => None,
    }
}

/// Joins the lines with line breaks.
fn join(lines: &Vec<String>) -> (text: String)
    ensures
        text@ == join_lines(texts(lines@)),
{
    let mut text = String::new();
    let mut i: usize = 0;
    while i < lines.len()
        invariant
            i <= lines.len(),
            text@ == join_lines(texts(lines@).take(i as int)),
        decreases lines.len() - i,
    {
        proof {
            reveal_strlit("\n");
            assert(texts(lines@).take(i + 1).drop_last() =~= texts(lines@).take(i as int));
        }
        if i > 0 {
            text.append("\n");
        }
        text.append(lines[i].as_str());
        i = i + 1;
    }
    assert(texts(lines@).take(i as int) =~= texts(lines@));
    text
}

/// The line classifier: it holds the continuation that is open, if any.
pub struct Input {
    input_buffer: Option<ContinuationBuffer>,
}

impl View for Input {
    type V = Option<BufferView>;

    closed spec fn view(&self) -> Option<BufferView> {
        match self.input_buffer {
            Some(buffer) => Some(buffer@),
            None => None,
        }
    }
}

impl Input {
    /// A classifier with no continuation open.
    pub fn new() -> (input: Input)
        ensures
            input@ is None,
    {
        Input { input_buffer: None }
    }

    /// The prompt for the next line.
    pub fn greeting(&self) -> (text: &'static str)
        ensures
            text@ == prompt(self@),
    {
        if self.input_buffer.is_some() {
            ">>> "
        } else {
            ">> "
        }
    }

    /// The text gathered by the continuation that is open, its lines joined by
    /// line breaks; `None` when none is open.
    pub fn pending(&self) -> (text: Option<String>)
        ensures
            text_of(text) == match self@ {
                Some(open) => Some(join_lines(open.lines)),
                None => None,
            },
    {
        match &self.input_buffer {
            Some(buffer) => Some(join(&buffer.lines)),
            None => None,
        }
    }

    /// Classifies what the line reader delivered: a line, or `None` when it
    /// has no more lines or was interrupted. The continuation is opened,
    /// extended or closed as the line asks, and a line that is to be
    /// remembered is offered to the recall history before the command is
    /// handed back.
    pub fn read(&mut self, line: Option<String>, history: &mut MemHistory) -> (command: ReplCommand)
        ensures
            command@ == classify_event(text_of(line), old(self)@).command,
            final(self)@ == classify_event(text_of(line), old(self)@).buffer,
            history_limit(*final(history)) == history_limit(*old(history)),
            recorded(
                history_entries(*old(history)),
                history_limit(*old(history)),
                classify_event(text_of(line), old(self)@).history,
                history_entries(*final(history)),
            ),
    {
        let line = match line {
            Some(line) => line,
            None => {
                return ReplCommand::Exit;
            },
        };
        let s = line.as_str();
        let len = s.unicode_len();
        let mut open: Option<ContinuationBuffer> = None;
        std::mem::swap(&mut open, &mut self.input_buffer);
        match open {
            Some(buffer) => {
                let ContinuationBuffer { kind, lines } = buffer;
                let mut lines = lines;
                let ghost gathered = texts(lines@);
                if len >= 2 && s.get_char(0) == CLOSE_MARKER && s.get_char(1) == CLOSE_MARKER {
                    if len > 2 {
                        lines.push(String::from_str(s.substring_char(2, len)));
                    }
                    assert(texts(lines@) =~= closed_lines(gathered, line@));
                    let text = join(&lines);
                    record(history, text.as_str());
                    match kind {
                        BufferKind::Value => ReplCommand::PrintValue(text),
                        BufferKind::Expression => ReplCommand::AddExpression(text),
                    }
                } else {
                    lines.push(line);
                    assert(texts(lines@) =~= gathered.push(line@));
                    self.input_buffer = Some(ContinuationBuffer { kind, lines });
                    ReplCommand::Nothing
                }
            },
            None => {
                if len >= 2 && s.get_char(0) == META_MARKER && s.get_char(1) == DELETE_MARKER {
                    match delete_argument(s, len) {
                        Some(n) => {
                            record(history, s);
                            ReplCommand::RemoveLines(n)
                        },
                        None => ReplCommand::Nothing,
                    }
                } else if len >= 1 && s.get_char(0) == META_MARKER {
                    record(history, s);
                    ReplCommand::PrintCode
                } else if len >= 2 && s.get_char(0) == VALUE_MARKER {
                    record(history, s);
                    ReplCommand::PrintValue(String::from_str(s.substring_char(1, len)))
                } else if len >= 2 && s.get_char(0) == OPEN_MARKER && s.get_char(1) == OPEN_MARKER {
                    let kind = if len >= 3 && s.get_char(2) == VALUE_MARKER {
                        BufferKind::Value
                    } else {
                        BufferKind::Expression
                    };
                    let lines: Vec<String> = Vec::new();
                    assert(texts(lines@) =~= Seq::empty());
                    self.input_buffer = Some(ContinuationBuffer { kind, lines });
                    ReplCommand::Nothing
                } else if len == 0 {
                    ReplCommand::Nothing
                } else {
                    record(history, s);
                    ReplCommand::AddExpression(line)
                }
            },
        }
    }
}

} // verus!
