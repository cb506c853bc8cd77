//! Which Hyprland config files hold bindings, and which one to write to.
use vstd::prelude::*;
use crate::text::{chars_of, string_of, copy_range, lines_chars, lines_of, trim_chars, trimmed, starts_with_seq, starts_with_chars, views};

verus! {

/// Result of configuration discovery.
#[derive(Debug, Clone)]
pub struct ConfigDiscovery {
    /// The primary config file (hyprland.conf)
    pub main_config: Option<String>,
    /// The recommended file for writing bindings
    pub bindings_file: Option<String>,
    /// All sourced config files found
    pub sourced_files: Vec<String>,
}

impl ConfigDiscovery {
    /// The file to write bindings to: the bindings file, else the main config.
    pub fn writable_config(&self) -> (r: Option<&String>)
        ensures
            r == match self.bindings_file {
                Some(b) => Some(&b),
                None => match self.main_config {
                    Some(m) => Some(&m),
                    None => None,
                },
            },
    {
        match &self.bindings_file {
            Some(b) => Some(b),
            None => match &self.main_config {
                Some(m) => Some(m),
                None => None,
            },
        }
    }
}

/// `paths` with repeats removed, first occurrence kept, after `seen`.
pub open spec fn distinct_after(seen: Seq<Seq<char>>, paths: Seq<Seq<char>>) -> Seq<Seq<char>>
    decreases paths.len(),
{
    if paths.len() == 0 {
        seen
    } else if seen.contains(paths[0]) {
        distinct_after(seen, paths.drop_first())
    } else {
        distinct_after(seen.push(paths[0]), paths.drop_first())
    }
}

/// The files to search for existing bindings: the main config first, then
/// every sourced file not already listed.
pub open spec fn config_files_of(d: ConfigDiscovery) -> Seq<Seq<char>> {
    let start = match d.main_config {
        Some(m) => seq![m@],
        None => Seq::empty(),
    };
    distinct_after(start, d.sourced_files@.map_values(|p: String| p@))
}

fn listed(files: &Vec<&String>, p: &String) -> (r: bool)
    ensures
        r == files@.map_values(|f: &String| f@).contains(p@),
{
    let ghost names = files@.map_values(|f: &String| f@);
    let mut i: usize = 0;
    while i < files.len()
        invariant
            i <= files@.len(),
            names == files@.map_values(|f: &String| f@),
            forall|k: int| 0 <= k < i ==> files@[k]@ != p@,
        decreases files@.len() - i,
    {
        if crate::text::str_eq(files[i].as_str(), p.as_str()) {
            assert(names[i as int] == p@);
            return true;
        }
        i = i + 1;
    }
    assert forall|k: int| 0 <= k < names.len() implies #[trigger] names[k] != p@ by {
        assert(names[k] == files@[k]@);
    }
    false
}

/// All config files that should be checked for existing bindings.
pub fn get_all_config_files(discovery: &ConfigDiscovery) -> (r: Vec<&String>)
    ensures
        r@.map_values(|f: &String| f@) == config_files_of(*discovery),
{
    let mut files: Vec<&String> = Vec::new();
    match &discovery.main_config {
        Some(m) => files.push(m),
        None => {},
    }
    let ghost paths = discovery.sourced_files@.map_values(|p: String| p@);
    assert(files@.map_values(|f: &String| f@) =~= match discovery.main_config {
        Some(m) => seq![m@],
        None => Seq::<Seq<char>>::empty(),
    });
    assert(paths.subrange(0, paths.len() as int) =~= paths);
    let mut i: usize = 0;
    while i < discovery.sourced_files.len()
        invariant
            i <= discovery.sourced_files@.len(),
            paths == discovery.sourced_files@.map_values(|p: String| p@),
            distinct_after(files@.map_values(|f: &String| f@), paths.subrange(i as int, paths.len() as int)) == config_files_of(*discovery),
        decreases discovery.sourced_files@.len() - i,
    {
        let p = &discovery.sourced_files[i];
        proof {
            assert(paths.subrange(i as int, paths.len() as int).drop_first() =~= paths.subrange(i + 1, paths.len() as int));
            assert(paths.subrange(i as int, paths.len() as int)[0] == p@);
        }
        if !listed(&files, p) {
            proof {
                assert(files@.push(p).map_values(|f: &String| f@) =~= files@.map_values(|f: &String| f@).push(p@));
            }
            files.push(p);
        }
        i = i + 1;
    }
    assert(paths.subrange(paths.len() as int, paths.len() as int) =~= Seq::<Seq<char>>::empty());
    files
}

/// The path a `source` directive names, when `line` is one: `source = path`
/// or `source path`, trimmed.
pub open spec fn source_target(line: Seq<char>) -> Option<Seq<char>> {
    let t = trimmed(line);
    if starts_with_seq(t, "source"@) {
        let rest = trimmed(t.subrange(6, t.len() as int));
        Some(if rest.len() > 0 && rest[0] == '=' { trimmed(rest.drop_first()) } else { rest })
    } else {
        None
    }
}

/// A leading `~` stands for the home directory (when known): `~/x` and `~x`
/// become `home/x`.
pub open spec fn expand_home(p: Seq<char>, home: Option<Seq<char>>) -> Seq<char> {
    if p.len() > 0 && p[0] == '~' && home.is_some() {
        let tail = if p.len() >= 2 && p[1] == '/' { p.subrange(2, p.len() as int) } else { p.drop_first() };
        if tail.len() == 0 { home->0 } else if home->0.len() > 0 && home->0.last() == '/' { home->0 + tail } else { home->0 + seq!['/'] + tail }
    } else {
        p
    }
}

/// The targets of the `source` directives of `ls`, expanded, in order.
pub open spec fn sourced_targets(ls: Seq<Seq<char>>, home: Option<Seq<char>>) -> Seq<Seq<char>>
    decreases ls.len(),
{
    if ls.len() == 0 {
        Seq::empty()
    } else {
        let rest = sourced_targets(ls.drop_last(), home);
        match source_target(ls.last()) {
            Some(p) => rest.push(expand_home(p, home)),
            None => rest,
        }
    }
}

fn source_target_exec(line: &[char]) -> (r: Option<Vec<char>>)
    ensures
        match (r, source_target(line@)) {
            (Some(a), Some(b)) => a@ == b,
            (None, None) => true,
            _ => false,
        },
{
    let t = trim_chars(line);
    let kw = chars_of("source");
    proof { reveal_strlit("source"); }
    if !starts_with_chars(t.as_slice(), kw.as_slice()) {
        return None;
    }
    let after = copy_range(t.as_slice(), 6, t.len());
    let rest = trim_chars(after.as_slice());
    if rest.len() > 0 && rest[0] == '=' {
        let tail = copy_range(rest.as_slice(), 1, rest.len());
        assert(tail@ =~= rest@.drop_first());
        Some(trim_chars(tail.as_slice()))
    } else {
        Some(rest)
    }
}

fn expand_home_exec(p: Vec<char>, home: Option<&str>) -> (r: Vec<char>)
    ensures
        r@ == expand_home(p@, match home {
            Some(h) => Some(h@),
            None => None,
        }),
{
    match home {
        Some(h) => {
            if p.len() > 0 && p[0] == '~' {
                let tail = if p.len() >= 2 && p[1] == '/' {
                    copy_range(p.as_slice(), 2, p.len())
                } else {
                    let t = copy_range(p.as_slice(), 1, p.len());
                    assert(t@ =~= p@.drop_first());
                    t
                };
                let mut out = chars_of(h);
                if tail.len() == 0 {
                    return out;
                }
                if !(out.len() > 0 && out[out.len() - 1] == '/') {
                    out.push('/');
                }
                let mut i: usize = 0;
                let ghost base = out@;
                while i < tail.len()
                    invariant
                        i <= tail@.len(),
                        out@ == base + tail@.subrange(0, i as int),
                    decreases tail@.len() - i,
                {
                    out.push(tail[i]);
                    i = i + 1;
                    assert(out@ =~= base + tail@.subrange(0, i as int));
                }
                assert(tail@.subrange(0, tail@.len() as int) =~= tail@);
                out
            } else {
                p
            }
        },
        None => p,
    }
}

/// The files a config text pulls in with `source` directives, `~` expanded
/// to `home`. Whether they exist is for the caller to check.
pub fn sourced_paths(content: &str, home: Option<&str>) -> (r: Vec<String>)
    ensures
        r@.map_values(|p: String| p@) == sourced_targets(lines_of(content@), match home {
            Some(h) => Some(h@),
            None => None,
        }),
{
    let ghost h = match home {
        Some(h) => Some(h@),
        None => None,
    };
    let c = chars_of(content);
    let ls = lines_chars(c.as_slice());
    let ghost all = lines_of(content@);
    let mut out: Vec<String> = Vec::new();
    let mut i: usize = 0;
    while i < ls.len()
        invariant
            i <= ls@.len(),
            views(ls@) == all,
            h == match home {
                Some(h) => Some(h@),
                None => None,
            },
            out@.map_values(|p: String| p@) == sourced_targets(all.subrange(0, i as int), h),
        decreases ls@.len() - i,
    {
        proof {
            assert(all.subrange(0, i + 1).drop_last() =~= all.subrange(0, i as int));
            assert(all.subrange(0, i + 1).last() == ls@[i as int]@);
        }
        match source_target_exec(ls[i].as_slice()) {
            Some(p) => {
                let e = expand_home_exec(p, home);
                let s = string_of(e.as_slice());
                proof {
                    assert(out@.push(s).map_values(|p: String| p@) =~= out@.map_values(|p: String| p@).push(s@));
                }
                out.push(s);
            },
            None => {},
        }
        i = i + 1;
    }
    assert(all.subrange(0, ls@.len() as int) =~= all);
    out
}

} // verus!
