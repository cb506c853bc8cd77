//! Normalizing raw transcription output.
use vstd::prelude::*;
use crate::text::{trim, trimmed, trim_chars, chars_of, string_of, push_char, lines_chars, lines_of, views};
use vstd::string::*;

verus! {

/// Normalizes the raw transcription output of one kind of engine.
pub trait TranscriptionNormalizer {
    /// The normalized text
    fn normalize(&self, raw_output: &str) -> String;

    /// The normalizer's name, for logging
    fn name(&self) -> &'static str;
}

/// Output that is clean text already only loses surrounding white space.
pub fn clean_text(raw_output: &str) -> (r: String)
    ensures
        r@ == trimmed(raw_output@),
{
    trim(raw_output)
}

/// Normalizer for OpenAI Whisper output.
#[derive(Debug, Clone, Copy, Default)]
pub struct OpenAIWhisperNormalizer;

impl OpenAIWhisperNormalizer {
    pub fn new() -> (r: Self) {
        OpenAIWhisperNormalizer
    }
}

impl TranscriptionNormalizer for OpenAIWhisperNormalizer {
    fn normalize(&self, raw_output: &str) -> String {
        clean_text(raw_output)
    }

    fn name(&self) -> &'static str {
        "OpenAIWhisperNormalizer"
    }
}

/// Normalizer for AssemblyAI output.
#[derive(Debug, Clone, Copy, Default)]
pub struct AssemblyAINormalizer;

impl AssemblyAINormalizer {
    pub fn new() -> (r: Self) {
        AssemblyAINormalizer
    }
}

impl TranscriptionNormalizer for AssemblyAINormalizer {
    fn normalize(&self, raw_output: &str) -> String {
        clean_text(raw_output)
    }

    fn name(&self) -> &'static str {
        "AssemblyAINormalizer"
    }
}

/// Normalizer for the hosted Whisper service's output.
#[derive(Debug, Clone, Copy, Default)]
pub struct AudeticWhisperNormalizer;

impl AudeticWhisperNormalizer {
    pub fn new() -> (r: Self) {
        AudeticWhisperNormalizer
    }
}

impl TranscriptionNormalizer for AudeticWhisperNormalizer {
    fn normalize(&self, raw_output: &str) -> String {
        clean_text(raw_output)
    }

    fn name(&self) -> &'static str {
        "AudeticWhisperNormalizer"
    }
}

/// Non-blank pieces, each trimmed, joined by single spaces.
pub open spec fn joined_pieces(ls: Seq<Seq<char>>) -> Seq<char>
    decreases ls.len(),
{
    if ls.len() == 0 {
        Seq::empty()
    } else {
        let rest = joined_pieces(ls.drop_last());
        let t = trimmed(ls.last());
        if t.len() == 0 {
            rest
        } else if rest.len() == 0 {
            t
        } else {
            rest + seq![' '] + t
        }
    }
}

/// Joins lines that had their timestamps removed into one paragraph: each
/// trimmed, blank ones skipped, separated by single spaces.
pub fn join_cleaned_lines(lines: &[String]) -> (r: String)
    ensures
        r@ == trimmed(joined_pieces(lines@.map_values(|l: String| l@))),
{
    let ghost all = lines@.map_values(|l: String| l@);
    let mut out = String::new();
    let mut i: usize = 0;
    while i < lines.len()
        invariant
            i <= lines@.len(),
            all == lines@.map_values(|l: String| l@),
            out@ == joined_pieces(all.subrange(0, i as int)),
        decreases lines@.len() - i,
    {
        proof {
            assert(all.subrange(0, i + 1).drop_last() =~= all.subrange(0, i as int));
            assert(all.subrange(0, i + 1).last() == lines@[i as int]@);
        }
        let c = chars_of(lines[i].as_str());
        let t = trim_chars(c.as_slice());
        if t.len() > 0 {
            if out.unicode_len() > 0 {
                push_char(&mut out, ' ');
            }
            let piece = string_of(t.as_slice());
            let ghost before = out@;
            out.append(piece.as_str());
            proof {
                assert(out@ =~= joined_pieces(all.subrange(0, i + 1)));
            }
        }
        i = i + 1;
    }
    assert(all.subrange(0, lines@.len() as int) =~= all);
    trim(out.as_str())
}

/// Whether a regular expression compiles (`Regex::new` succeeds).
pub uninterp spec fn pattern_compiles(pattern: Seq<char>) -> bool;

/// What `Regex::replace_all` with an empty replacement leaves of `line`:
/// every match of `pattern` removed.
pub uninterp spec fn pattern_removed(pattern: Seq<char>, line: Seq<char>) -> Seq<char>;

/// Relies on `regex::Regex::new` and `Regex::replace_all`: every match of
/// `pattern` removed from `line`; none when the pattern does not compile.
#[verifier::external_body]
fn remove_matches(pattern: &str, line: &str) -> (r: Option<String>)
    ensures
        r is Some <==> pattern_compiles(pattern@),
        r matches Some(s) ==> s@ == pattern_removed(pattern@, line@),
{
    regex::Regex::new(pattern).ok().map(|re| re.replace_all(line, "").into_owned())
}

/// Timestamps like `[00:00:00.000 --> 00:00:03.280]` (or with `:` before
/// the milliseconds) and the space after them.
pub const TIMESTAMP_PATTERN: &'static str = "\\[\\d{2}:\\d{2}:\\d{2}[:.]\\d{3}\\s*-->\\s*\\d{2}:\\d{2}:\\d{2}[:.]\\d{3}\\]\\s*";

/// A line with its timestamps removed (kept as it is if the pattern did
/// not compile).
pub open spec fn without_timestamps(line: Seq<char>) -> Seq<char> {
    if pattern_compiles(TIMESTAMP_PATTERN@) {
        pattern_removed(TIMESTAMP_PATTERN@, line)
    } else {
        line
    }
}

/// Normalizer for whisper.cpp output: timestamps removed from each line,
/// the lines joined into one paragraph.
#[derive(Debug, Clone, Copy)]
pub struct WhisperCppNormalizer;

impl WhisperCppNormalizer {
    /// Fails when the timestamp pattern does not compile.
    pub fn new() -> (r: Result<Self, String>)
        ensures
            r is Ok <==> pattern_compiles(TIMESTAMP_PATTERN@),
    {
        match remove_matches(TIMESTAMP_PATTERN, "") {
            Some(_) => Ok(WhisperCppNormalizer),
            None => Err(String::from_str("invalid timestamp pattern")),
        }
    }

    pub fn normalize_output(&self, raw_output: &str) -> (r: String)
        ensures
            r@ == trimmed(joined_pieces(lines_of(raw_output@).map_values(|l: Seq<char>| without_timestamps(l)))),
    {
        let c = chars_of(raw_output);
        let ls = lines_chars(c.as_slice());
        let ghost all = lines_of(raw_output@);
        let mut cleaned: Vec<String> = Vec::new();
        let mut i: usize = 0;
        while i < ls.len()
            invariant
                i <= ls@.len(),
                views(ls@) == all,
                cleaned@.len() == i,
                forall|k: int| 0 <= k < i ==> #[trigger] cleaned@[k]@ == without_timestamps(all[k]),
            decreases ls@.len() - i,
        {
            let line = string_of(ls[i].as_slice());
            assert(line@ == all[i as int]);
            let out = match remove_matches(TIMESTAMP_PATTERN, line.as_str()) {
                Some(s) => s,
                None => line,
            };
            cleaned.push(out);
            i = i + 1;
        }
        assert(cleaned@.map_values(|l: String| l@) =~= all.map_values(|l: Seq<char>| without_timestamps(l)));
        join_cleaned_lines(cleaned.as_slice())
    }
}

impl TranscriptionNormalizer for WhisperCppNormalizer {
    fn normalize(&self, raw_output: &str) -> String {
        self.normalize_output(raw_output)
    }

    fn name(&self) -> &'static str {
        "WhisperCppNormalizer"
    }
}

} // verus!
