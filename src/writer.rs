//! Rewriting a Hyprland config text: the managed section that holds this
//! application's binding is replaced, appended or removed.
use vstd::prelude::*;
use vstd::string::*;
use crate::keybind::{ProposedBinding, AUDETIC_SECTION_MARKER, hyprland_line};
use crate::text::{chars_of, string_of, copy_range, contains_seq, contains_chars, find_chars, matches_at, lines_chars, lines_of, trim_chars, trimmed, views};

verus! {

/// Whether a (trimmed) line ends the managed section: a blank line, or a
/// comment that does not mention Audetic.
pub open spec fn ends_section(t: Seq<char>) -> bool {
    t.len() == 0 || (t[0] == '#' && !contains_seq(t, "Audetic"@))
}

/// Characters taken by lines `idx..` of the section, each counted with its
/// newline, up to the line that ends it.
pub open spec fn section_rest(ls: Seq<Seq<char>>, idx: int) -> int
    decreases ls.len() - idx,
{
    if idx >= ls.len() || idx < 0 {
        0
    } else if ends_section(trimmed(ls[idx])) {
        0
    } else {
        ls[idx].len() + 1 + section_rest(ls, idx + 1)
    }
}

/// Length of the managed section at the start of `section`: its marker line
/// and the lines after it up to a blank line or an unrelated comment.
pub open spec fn section_len(section: Seq<char>) -> int {
    let ls = lines_of(section);
    if ls.len() == 0 {
        0
    } else {
        ls[0].len() + 1 + section_rest(ls, 1)
    }
}

proof fn lemma_section_rest_nonneg(ls: Seq<Seq<char>>, idx: int)
    ensures
        section_rest(ls, idx) >= 0,
    decreases ls.len() - idx,
{
    if idx >= 0 && idx < ls.len() && !ends_section(trimmed(ls[idx])) {
        lemma_section_rest_nonneg(ls, idx + 1);
    }
}

/// The length of the managed section that starts `section`, capped at the
/// text's own length.
pub fn find_section_end(section: &[char]) -> (r: usize)
    ensures
        r as int == if section_len(section@) <= section@.len() { section_len(section@) } else { section@.len() as int },
{
    let ls = lines_chars(section);
    let n = section.len();
    if ls.len() == 0 {
        return 0;
    }
    let ghost all = lines_of(section@);
    let mut total: usize = if ls[0].len() < n { ls[0].len() + 1 } else { n };
    let mut idx: usize = 1;
    proof { lemma_section_rest_nonneg(all, 1); }
    while idx < ls.len()
        invariant
            views(ls@) == all,
            1 <= idx <= all.len(),
            n == section@.len(),
            total <= n,
            section_rest(all, idx as int) >= 0,
            total as int == if all[0].len() + 1 + section_rest(all, 1) - section_rest(all, idx as int) <= n {
                all[0].len() + 1 + section_rest(all, 1) - section_rest(all, idx as int)
            } else {
                n as int
            },
            all[0].len() + 1 + section_rest(all, 1) - section_rest(all, idx as int) >= 0,
        ensures
            section_rest(all, idx as int) == 0,
            total as int == if all[0].len() + 1 + section_rest(all, 1) <= n {
                all[0].len() + 1 + section_rest(all, 1)
            } else {
                n as int
            },
        decreases all.len() - idx,
    {
        let t = trim_chars(ls[idx].as_slice());
        let marker = chars_of("Audetic");
        assert(ls@[idx as int]@ == all[idx as int]);
        if t.len() == 0 || (t[0] == '#' && !contains_chars(t.as_slice(), marker.as_slice())) {
            break;
        } else {
            proof { lemma_section_rest_nonneg(all, idx + 1); }
            let step = ls[idx].len();
            if total < n && step < n - total {
                total = total + step + 1;
            } else {
                total = n;
            }
            idx = idx + 1;
        }
    }
    total
}

/// The text with the managed section holding `line`: an existing section
/// (from its marker to its end) is replaced, otherwise one is appended after
/// a blank line.
pub open spec fn updated_content(content: Seq<char>, line: Seq<char>) -> Seq<char> {
    let marker = AUDETIC_SECTION_MARKER@;
    let section = marker + seq!['\n'] + line;
    if contains_seq(content, marker) {
        let start = choose|i: int| matches_at(content, marker, i) && forall|k: int| 0 <= k < i ==> !matches_at(content, marker, k);
        let rest = content.subrange(start, content.len() as int);
        let len = if section_len(rest) <= rest.len() { section_len(rest) } else { rest.len() as int };
        content.subrange(0, start) + section + seq!['\n'] + content.subrange(start + len, content.len() as int)
    } else {
        let base = if content.len() > 0 && content.last() == '\n' { content } else { content.push('\n') };
        base + seq!['\n'] + section + seq!['\n']
    }
}

proof fn lemma_first_match_unique(s: Seq<char>, t: Seq<char>, i: int, j: int)
    requires
        matches_at(s, t, i) && forall|k: int| 0 <= k < i ==> !matches_at(s, t, k),
        matches_at(s, t, j) && forall|k: int| 0 <= k < j ==> !matches_at(s, t, k),
    ensures
        i == j,
{
    if i < j {
        assert(!matches_at(s, t, i));
    } else if j < i {
        assert(!matches_at(s, t, j));
    }
}

fn push_all(out: &mut Vec<char>, s: &[char])
    ensures
        final(out)@ == old(out)@ + s@,
{
    let mut i: usize = 0;
    while i < s.len()
        invariant
            i <= s@.len(),
            out@ == old(out)@ + s@.subrange(0, i as int),
        decreases s@.len() - i,
    {
        out.push(s[i]);
        i = i + 1;
        assert(out@ =~= old(out)@ + s@.subrange(0, i as int));
    }
    assert(s@.subrange(0, s@.len() as int) =~= s@);
}

/// Updates the existing managed section or appends a new one.
pub fn update_or_append_binding(content: &str, binding: &ProposedBinding) -> (r: String)
    ensures
        r@ == updated_content(content@, hyprland_line(binding.modifiers.view(), binding.key@, binding.description@, binding.command@)),
{
    let line = binding.to_hyprland_line();
    let c = chars_of(content);
    let marker = chars_of(AUDETIC_SECTION_MARKER);
    let line_chars = chars_of(line.as_str());
    let mut section: Vec<char> = Vec::new();
    push_all(&mut section, marker.as_slice());
    section.push('\n');
    push_all(&mut section, line_chars.as_slice());
    match find_chars(c.as_slice(), marker.as_slice()) {
        Some(start) => {
            let rest = copy_range(c.as_slice(), start, c.len());
            let len = find_section_end(rest.as_slice());
            let end = start + len;
            let head = copy_range(c.as_slice(), 0, start);
            let tail = copy_range(c.as_slice(), end, c.len());
            let mut out: Vec<char> = Vec::new();
            push_all(&mut out, head.as_slice());
            push_all(&mut out, section.as_slice());
            out.push('\n');
            push_all(&mut out, tail.as_slice());
            proof {
                let marker_s = AUDETIC_SECTION_MARKER@;
                assert(contains_seq(content@, marker_s));
                let st = choose|i: int| matches_at(content@, marker_s, i) && forall|k: int| 0 <= k < i ==> !matches_at(content@, marker_s, k);
                lemma_first_match_unique(content@, marker_s, st, start as int);
                assert(out@ =~= updated_content(content@, line@));
            }
            string_of(out.as_slice())
        },
        None => {
            let mut out: Vec<char> = Vec::new();
            push_all(&mut out, c.as_slice());
            if !(c.len() > 0 && c[c.len() - 1] == '\n') {
                out.push('\n');
            }
            out.push('\n');
            push_all(&mut out, section.as_slice());
            out.push('\n');
            assert(out@ =~= updated_content(content@, line@));
            string_of(out.as_slice())
        },
    }
}

/// The text without the managed section, when it has one: the section and
/// the newlines after it are dropped, and the text still ends with a newline.
pub open spec fn removed_content(content: Seq<char>) -> Option<Seq<char>> {
    let marker = AUDETIC_SECTION_MARKER@;
    if contains_seq(content, marker) {
        let start = choose|i: int| matches_at(content, marker, i) && forall|k: int| 0 <= k < i ==> !matches_at(content, marker, k);
        let rest = content.subrange(start, content.len() as int);
        let len = if section_len(rest) <= rest.len() { section_len(rest) } else { rest.len() as int };
        let after = drop_newlines(content.subrange(start + len, content.len() as int));
        let kept = content.subrange(0, start) + after;
        Some(if kept.len() > 0 && kept.last() == '\n' { kept } else { kept.push('\n') })
    } else {
        None
    }
}

/// `s` without its leading newlines.
pub open spec fn drop_newlines(s: Seq<char>) -> Seq<char>
    decreases s.len(),
{
    if s.len() > 0 && s[0] == '\n' {
        drop_newlines(s.drop_first())
    } else {
        s
    }
}

/// The config text with the managed section removed; `None` when it has no
/// such section.
pub fn remove_section(content: &str) -> (r: Option<String>)
    ensures
        match (r, removed_content(content@)) {
            (Some(a), Some(b)) => a@ == b,
            (None, None) => true,
            _ => false,
        },
{
    let c = chars_of(content);
    let marker = chars_of(AUDETIC_SECTION_MARKER);
    match find_chars(c.as_slice(), marker.as_slice()) {
        Some(start) => {
            let rest = copy_range(c.as_slice(), start, c.len());
            let len = find_section_end(rest.as_slice());
            let end = start + len;
            let mut from = end;
            let n = c.len();
            assert(c@.subrange(end as int, n as int).subrange(0, 0) =~= Seq::<char>::empty());
            while from < n && c[from] == '\n'
                invariant
                    end <= from <= n == c@.len(),
                    drop_newlines(c@.subrange(end as int, n as int)) == drop_newlines(c@.subrange(from as int, n as int)),
                decreases n - from,
            {
                assert(c@.subrange(from as int, n as int).drop_first() =~= c@.subrange(from + 1, n as int));
                from = from + 1;
            }
            let mut out = copy_range(c.as_slice(), 0, start);
            let tail = copy_range(c.as_slice(), from, n);
            push_all(&mut out, tail.as_slice());
            if !(out.len() > 0 && out[out.len() - 1] == '\n') {
                out.push('\n');
            }
            proof {
                let marker_s = AUDETIC_SECTION_MARKER@;
                assert(contains_seq(content@, marker_s));
                let st = choose|i: int| matches_at(content@, marker_s, i) && forall|k: int| 0 <= k < i ==> !matches_at(content@, marker_s, k);
                lemma_first_match_unique(content@, marker_s, st, start as int);
                assert(out@ =~= removed_content(content@)->0);
            }
            Some(string_of(out.as_slice()))
        },
        None => None,
    }
}

} // verus!
