//! The local session store: one JSON record per line for every message
//! sent or received in a chat.
use vstd::prelude::*;
use crate::text::{trim_text, trimmed};

verus! {

/// A message as the local session file records it.
#[derive(Clone, Debug)]
pub struct LocalMessage {
    pub role: String,
    pub content: String,
    pub reasoning: Option<String>,
    pub timestamp: u64,
}

/// One record line of a session file, with its 1-based line number.
#[derive(Clone, Debug)]
pub struct SessionLine {
    pub number: usize,
    pub text: String,
}

/// The record lines of a session file, numbered from 1, without the blank
/// ones.
pub open spec fn record_lines(lines: Seq<String>) -> Seq<(int, Seq<char>)>
    decreases lines.len(),
{
    if lines.len() == 0 {
        Seq::empty()
    } else {
        let rest = record_lines(lines.drop_last());
        if trimmed(lines.last()@).len() == 0 {
            rest
        } else {
            rest.push((lines.len() as int, lines.last()@))
        }
    }
}

/// The numbers and texts of session lines.
pub open spec fn lines_view(v: Seq<SessionLine>) -> Seq<(int, Seq<char>)> {
    v.map_values(|l: SessionLine| (l.number as int, l.text@))
}

/// Picks the record lines out of the lines of a session file: every line
/// that is not blank, with its line number counted from 1.
pub fn session_records(lines: &Vec<String>) -> (r: Vec<SessionLine>)
    ensures
        lines_view(r@) == record_lines(lines@),
{
    let mut r: Vec<SessionLine> = Vec::new();
    let mut i: usize = 0;
    assert(lines@.take(0) =~= Seq::<String>::empty());
    assert(lines_view(r@) =~= Seq::<(int, Seq<char>)>::empty());
    while i < lines.len()
        invariant
            i <= lines.len(),
            lines_view(r@) == record_lines(lines@.take(i as int)),
        decreases lines.len() - i,
    {
        let blank = trim_text(lines[i].as_str()).as_str().is_empty();
        let ghost before = r@;
        if !blank {
            r.push(SessionLine { number: i + 1, text: lines[i].clone() });
            assert(lines_view(r@) =~= lines_view(before).push(((i + 1) as int, lines@[i as int]@)));
        }
        assert(lines@.take(i + 1).drop_last() =~= lines@.take(i as int));
        assert(lines@.take(i + 1).last() == lines@[i as int]);
        i = i + 1;
    }
    assert(lines@.take(lines.len() as int) =~= lines@);
    r
}

/// A session file whose lines all hold a record reads back as every one of
/// them, in order, numbered from 1: no record written is lost or reordered.
pub proof fn lemma_every_written_record_reads_back(lines: Seq<String>)
    requires
        forall|i: int| 0 <= i < lines.len() ==> #[trigger] trimmed(lines[i]@).len() > 0,
    ensures
        record_lines(lines) == Seq::new(lines.len(), |i: int| (i + 1, lines[i]@)),
    decreases lines.len(),
{
    if lines.len() > 0 {
        let rest = lines.drop_last();
        assert forall|i: int| 0 <= i < rest.len() implies #[trigger] trimmed(rest[i]@).len() > 0 by {
            assert(rest[i] == lines[i]);
        }
        lemma_every_written_record_reads_back(rest);
        assert(trimmed(lines[lines.len() - 1]@).len() > 0);
        assert(record_lines(lines) =~= Seq::new(lines.len(), |i: int| (i + 1, lines[i]@)));
    }
}

/// Appending a record line to a session file adds exactly that record to
/// what reads back: after every record read before, numbered after every
/// line before it, with the earlier records unchanged.
pub proof fn lemma_appended_record_reads_back(lines: Seq<String>, record: String)
    requires
        trimmed(record@).len() > 0,
    ensures
        record_lines(lines.push(record)) == record_lines(lines).push(
            ((lines.len() + 1) as int, record@),
        ),
{
    assert(lines.push(record).drop_last() =~= lines);
}

/// The line that records one message: its JSON text and a newline.
pub fn session_record(json: &str) -> (line: String)
    ensures
        line@ == json@ + "\n"@,
{
    let mut line = json.to_owned();
    line.append("\n");
    line
}

} // verus!
