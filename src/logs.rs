//! Application logs and transcription history, combined.
use vstd::prelude::*;
use crate::history::HistoryEntry;
use crate::text::{chars_of, string_of, lines_chars, lines_of, trim_chars, trimmed, views};

verus! {

/// Combined logs: application log lines and recent transcriptions.
#[derive(Debug, Clone)]
pub struct LogsResult {
    /// Application log lines
    pub app_logs: Vec<String>,
    /// Recent transcription entries
    pub transcriptions: Vec<HistoryEntry>,
}

/// Options for log retrieval.
#[derive(Debug, Clone, Copy, Default, PartialEq, Eq)]
pub struct LogsOptions {
    /// Number of log entries to retrieve
    pub lines: usize,
}

impl LogsOptions {
    pub fn new(lines: usize) -> (r: Self)
        ensures
            r.lines == lines,
    {
        LogsOptions { lines }
    }
}

/// The lines of `ls` that hold more than white space, in order.
pub open spec fn non_blank(ls: Seq<Seq<char>>) -> Seq<Seq<char>>
    decreases ls.len(),
{
    if ls.len() == 0 {
        Seq::empty()
    } else if trimmed(ls.last()).len() > 0 {
        non_blank(ls.drop_last()).push(ls.last())
    } else {
        non_blank(ls.drop_last())
    }
}

/// The non-blank lines of a journal output.
pub fn log_lines(output: &str) -> (r: Vec<String>)
    ensures
        r@.map_values(|l: String| l@) == non_blank(lines_of(output@)),
{
    let c = chars_of(output);
    let ls = lines_chars(c.as_slice());
    let ghost all = lines_of(output@);
    let mut out: Vec<String> = Vec::new();
    let mut i: usize = 0;
    while i < ls.len()
        invariant
            i <= ls@.len(),
            views(ls@) == all,
            out@.map_values(|l: String| l@) == non_blank(all.subrange(0, i as int)),
        decreases ls@.len() - i,
    {
        proof {
            assert(all.subrange(0, i + 1).drop_last() =~= all.subrange(0, i as int));
            assert(all.subrange(0, i + 1).last() == ls@[i as int]@);
        }
        let t = trim_chars(ls[i].as_slice());
        if t.len() > 0 {
            let s = string_of(ls[i].as_slice());
            proof {
                assert(out@.push(s).map_values(|l: String| l@) =~= out@.map_values(|l: String| l@).push(s@));
            }
            out.push(s);
        }
        i = i + 1;
    }
    assert(all.subrange(0, ls@.len() as int) =~= all);
    out
}

} // verus!
