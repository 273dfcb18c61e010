//! The recall history of the line reader, as far as the classifier fills it.
//!
//! The history is `rustyline`'s in-memory one. It is opaque here: what it
//! holds is spoken of through `history_entries` and `history_limit`, and the
//! one operation on it, `record`, is believed to do what its contract says.

use vstd::prelude::*;
use rustyline::history::{History, MemHistory};

verus! {

/// `rustyline::history::MemHistory`, the history that lives in memory only.
/// Nothing inside it is visible to the verifier.
#[verifier::external_type_specification]
#[verifier::external_body]
pub struct ExMemHistory(rustyline::history::MemHistory);

/// The lines that a `MemHistory` holds, oldest first, each as the sequence of
/// its characters.
pub uninterp spec fn history_entries(history: MemHistory) -> Seq<Seq<char>>;

/// The number of lines that a `MemHistory` holds at most: the maximum
/// history size of the configuration that it was made with.
pub uninterp spec fn history_limit(history: MemHistory) -> nat;

/// The entries after a line was taken in: the line stands last, and the
/// oldest entry has left if the history was full.
pub open spec fn inserted(entries: Seq<Seq<char>>, limit: nat, line: Seq<char>) -> Seq<Seq<char>> {
    if entries.len() == limit {
        entries.drop_first().push(line)
    } else {
        entries.push(line)
    }
}

/// What may have become of the entries when the classifier was done with a
/// line. With no text to record they are as before. With one, the history
/// either took it in or passed it over, as its own settings have it; an empty
/// text, and any text if the limit is zero, is passed over.
pub open spec fn recorded(
    before: Seq<Seq<char>>,
    limit: nat,
    text: Option<Seq<char>>,
    after: Seq<Seq<char>>,
) -> bool {
    match text {
        Some(line) => if line.len() == 0 || limit == 0 {
            after == before
        } else {
            after == before || after == inserted(before, limit, line)
        },
        None => after == before,
    }
}

/// Offers the line to the history, through `rustyline`'s `History::add` for
/// `MemHistory`, and tells whether the history took it in.
///
/// Believed, not proved: the limit stays as it is; if the line is taken in,
/// the entries change as `inserted` says, and if not they stay as they are;
/// an empty line is never taken in, nor is any line when the limit is zero.
/// Whether another line is taken in depends on the settings that the history
/// was made with (it may pass over a line that starts with white space, or
/// one that repeats the newest entry), of which nothing is claimed.
#[verifier::external_body]
pub(crate) fn record(history: &mut MemHistory, line: &str) -> (added: bool)
    ensures
        history_limit(*final(history)) == history_limit(*old(history)),
        added ==> history_entries(*final(history)) == inserted(
            history_entries(*old(history)),
            history_limit(*old(history)),
            line@,
        ),
        !added ==> history_entries(*final(history)) == history_entries(*old(history)),
        line@.len() == 0 || history_limit(*old(history)) == 0 ==> !added,
{
    match history.add(line) {
        Ok(added) => added,
        Err(_) => false,
    }
}

} // verus!
