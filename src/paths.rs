//! File-name rules: extensions and the application's directory layout.
use vstd::prelude::*;
use crate::text::{chars_of, string_of, copy_range, u64_text, decimal};
use vstd::string::*;

verus! {

/// Index of the last `c` in `s`, or -1 when there is none.
pub open spec fn last_index(s: Seq<char>, c: char) -> int
    decreases s.len(),
{
    if s.len() == 0 {
        -1
    } else if s.last() == c {
        s.len() - 1
    } else {
        last_index(s.drop_last(), c)
    }
}

proof fn lemma_last_index_bounds(s: Seq<char>, c: char)
    ensures
        -1 <= last_index(s, c) < s.len(),
        last_index(s, c) >= 0 ==> s[last_index(s, c)] == c,
    decreases s.len(),
{
    if s.len() > 0 && s.last() != c {
        lemma_last_index_bounds(s.drop_last(), c);
    }
}

/// Where the last component of `p` ends, as `Path` reads components:
/// trailing `/` and `/.` do not count.
pub open spec fn name_end(p: Seq<char>) -> int
    decreases p.len(),
{
    if p.len() > 0 && p.last() == '/' {
        name_end(p.drop_last())
    } else if p.len() >= 2 && p.last() == '.' && p[p.len() - 2] == '/' {
        name_end(p.subrange(0, p.len() - 2))
    } else {
        p.len() as int
    }
}

proof fn lemma_name_end_bounds(p: Seq<char>)
    ensures
        0 <= name_end(p) <= p.len(),
    decreases p.len(),
{
    if p.len() > 0 && p.last() == '/' {
        lemma_name_end_bounds(p.drop_last());
    } else if p.len() >= 2 && p.last() == '.' && p[p.len() - 2] == '/' {
        lemma_name_end_bounds(p.subrange(0, p.len() - 2));
    }
}

/// Where the last component starts: just after the `/` before it.
pub open spec fn name_start(p: Seq<char>) -> int {
    last_index(p.subrange(0, name_end(p)), '/') + 1
}

/// The last component of `p`.
pub open spec fn last_component(p: Seq<char>) -> Seq<char> {
    p.subrange(name_start(p), name_end(p))
}

/// Whether `p` has a file name, as `Path::file_name` tells: a last
/// component that is neither empty, `.` nor `..`.
pub open spec fn has_file_name(p: Seq<char>) -> bool {
    let n = last_component(p);
    n.len() > 0 && n != seq!['.'] && n != seq!['.', '.']
}

/// Position of the dot that starts the extension: the last dot of the file
/// name, unless the name starts with it.
pub open spec fn extension_dot(p: Seq<char>) -> Option<int> {
    if has_file_name(p) {
        let d = last_index(p.subrange(0, name_end(p)), '.');
        if d > name_start(p) {
            Some(d)
        } else {
            None
        }
    } else {
        None
    }
}

/// The extension of a path, without its dot, as `Path::extension` gives it.
pub open spec fn extension_of(p: Seq<char>) -> Option<Seq<char>> {
    match extension_dot(p) {
        Some(d) => Some(p.subrange(d + 1, name_end(p))),
        None => None,
    }
}

/// The path with its extension replaced by `ext`, as `Path::with_extension`
/// builds it: everything after the file stem is dropped and `.ext` added
/// (nothing for an empty `ext`); a path without a file name is unchanged.
pub open spec fn with_extension(p: Seq<char>, ext: Seq<char>) -> Seq<char> {
    if has_file_name(p) {
        let stem_end = match extension_dot(p) {
            Some(d) => d,
            None => name_end(p),
        };
        p.subrange(0, stem_end) + if ext.len() > 0 { seq!['.'] + ext } else { Seq::empty() }
    } else {
        p
    }
}

/// The last index of `c` in `s[..end]`.
pub fn find_last(s: &[char], c: char, end: usize) -> (r: Option<usize>)
    requires
        end <= s@.len(),
    ensures
        match r {
            Some(i) => i as int == last_index(s@.subrange(0, end as int), c) && i < end,
            None => last_index(s@.subrange(0, end as int), c) == -1,
        },
{
    let mut i: usize = end;
    while i > 0
        invariant
            i <= end <= s@.len(),
            last_index(s@.subrange(0, end as int), c) == last_index(s@.subrange(0, i as int), c),
        decreases i,
    {
        assert(s@.subrange(0, i as int).drop_last() =~= s@.subrange(0, i - 1));
        if s[i - 1] == c {
            return Some(i - 1);
        }
        i = i - 1;
    }
    assert(s@.subrange(0, 0) =~= Seq::<char>::empty());
    None
}

fn name_end_exec(p: &[char]) -> (r: usize)
    ensures
        r as int == name_end(p@),
        r <= p@.len(),
{
    let mut j: usize = p.len();
    assert(p@.subrange(0, p@.len() as int) =~= p@);
    loop
        invariant
            j <= p@.len(),
            name_end(p@) == name_end(p@.subrange(0, j as int)),
        decreases j,
    {
        let ghost q = p@.subrange(0, j as int);
        if j > 0 && p[j - 1] == '/' {
            assert(q.drop_last() =~= p@.subrange(0, j - 1));
            j = j - 1;
        } else if j >= 2 && p[j - 1] == '.' && p[j - 2] == '/' {
            assert(q.subrange(0, q.len() - 2) =~= p@.subrange(0, j - 2));
            j = j - 2;
        } else {
            return j;
        }
    }
}

/// The bounds of the last component, and whether it is a file name.
fn file_name_bounds(p: &[char]) -> (r: (usize, usize, bool))
    ensures
        r.0 as int == name_start(p@),
        r.1 as int == name_end(p@),
        r.0 <= r.1 <= p@.len(),
        r.2 == has_file_name(p@),
{
    let e = name_end_exec(p);
    proof {
        lemma_last_index_bounds(p@.subrange(0, e as int), '/');
    }
    let s: usize = match find_last(p, '/', e) {
        Some(i) => i + 1,
        None => 0,
    };
    let len = e - s;
    let ghost n = last_component(p@);
    assert(n.len() == len);
    let dot_only = len == 1 && p[s] == '.';
    let dots = len == 2 && p[s] == '.' && p[s + 1] == '.';
    proof {
        if len == 1 {
            assert(n[0] == p@[s as int]);
            if dot_only { assert(n =~= seq!['.']); }
        }
        if len == 2 {
            assert(n[0] == p@[s as int]);
            assert(n[1] == p@[s + 1]);
            if dots { assert(n =~= seq!['.', '.']); }
        }
        if n == seq!['.'] { assert(n[0] == '.'); }
        if n == seq!['.', '.'] { assert(n[0] == '.' && n[1] == '.'); }
    }
    (s, e, len > 0 && !dot_only && !dots)
}

fn extension_dot_exec(p: &[char]) -> (r: Option<usize>)
    ensures
        match r {
            Some(d) => extension_dot(p@) == Some(d as int) && d < name_end(p@),
            None => extension_dot(p@).is_none(),
        },
{
    let (s, e, named) = file_name_bounds(p);
    if !named {
        return None;
    }
    match find_last(p, '.', e) {
        Some(d) => if d > s {
            Some(d)
        } else {
            None
        },
        None => None,
    }
}

/// The extension of `path`, without its dot.
pub fn extension(path: &str) -> (r: Option<String>)
    ensures
        match r {
            Some(e) => extension_of(path@) == Some(e@),
            None => extension_of(path@).is_none(),
        },
{
    let p = chars_of(path);
    proof { lemma_name_end_bounds(p@); }
    match extension_dot_exec(p.as_slice()) {
        Some(d) => {
            let e = name_end_exec(p.as_slice());
            let x = copy_range(p.as_slice(), d + 1, e);
            Some(string_of(x.as_slice()))
        },
        None => None,
    }
}

/// `path` with its extension replaced by `ext`.
pub fn replace_extension(path: &str, ext: &str) -> (r: String)
    ensures
        r@ == with_extension(path@, ext@),
{
    let p = chars_of(path);
    let x = chars_of(ext);
    let (_, e, named) = file_name_bounds(p.as_slice());
    if !named {
        return String::from_str(path);
    }
    let stem_end: usize = match extension_dot_exec(p.as_slice()) {
        Some(d) => d,
        None => e,
    };
    let mut out = copy_range(p.as_slice(), 0, stem_end);
    if x.len() > 0 {
        out.push('.');
        let mut j: usize = 0;
        let ghost base = out@;
        while j < x.len()
            invariant
                j <= x@.len(),
                out@ == base + x@.subrange(0, j as int),
            decreases x@.len() - j,
        {
            out.push(x[j]);
            j = j + 1;
            assert(out@ =~= base + x@.subrange(0, j as int));
        }
        assert(x@.subrange(0, x@.len() as int) =~= x@);
        assert(out@ =~= p@.subrange(0, stem_end as int) + (seq!['.'] + x@));
    } else {
        assert(out@ =~= p@.subrange(0, stem_end as int) + Seq::<char>::empty());
    }
    string_of(out.as_slice())
}

/// `name` inside directory `base`, as `Path::join` puts it for a relative
/// name: a `/` between them unless `base` is empty or already ends with one.
pub open spec fn joined(base: Seq<char>, name: Seq<char>) -> Seq<char> {
    if base.len() == 0 {
        name
    } else if base.last() == '/' {
        base + name
    } else {
        base + seq!['/'] + name
    }
}

/// Joins a relative `name` onto `base`.
pub fn join(base: &str, name: &str) -> (r: String)
    ensures
        r@ == joined(base@, name@),
{
    let n = base.unicode_len();
    if n == 0 {
        return String::from_str(name);
    }
    let mut s = String::from_str(base);
    if base.get_char(n - 1) != '/' {
        s.append("/");
        proof { reveal_strlit("/"); }
    }
    s.append(name);
    s
}

/// Relies on `std::path::Path::exists`: whether something exists at the
/// path, as the file system answers now.
#[verifier::external_body]
pub(crate) fn path_exists(path: &str) -> (r: bool) {
    std::path::Path::new(path).exists()
}

/// Relies on `dirs::config_dir`: the user's configuration directory, when
/// the environment tells one.
#[verifier::external_body]
fn user_config_dir() -> (r: Option<String>) {
    dirs::config_dir().map(|p| p.to_string_lossy().into_owned())
}

/// Relies on `dirs::data_dir`: the user's data directory, when the
/// environment tells one.
#[verifier::external_body]
fn user_data_dir() -> (r: Option<String>) {
    dirs::data_dir().map(|p| p.to_string_lossy().into_owned())
}

/// Relies on `dirs::home_dir`: the user's home directory, when the
/// environment tells one.
#[verifier::external_body]
fn user_home_dir() -> (r: Option<String>) {
    dirs::home_dir().map(|p| p.to_string_lossy().into_owned())
}

/// The application's directory name.
pub const APP_DIR: &'static str = "audetic";

/// Neither the configuration nor the data directory could be determined.
#[derive(Debug, Clone, Copy, PartialEq, Eq, Structural)]
pub enum DirError {
    NoConfigDir,
    NoDataDir,
}

/// The application's configuration directory under a user configuration
/// directory `base`.
pub open spec fn app_config_dir(base: Seq<char>) -> Seq<char> {
    joined(base, APP_DIR@)
}

/// The application's data directory: under the user data directory, or
/// else under `home/.local/share`.
pub open spec fn app_data_dir(data: Option<Seq<char>>, home: Seq<char>) -> Seq<char> {
    match data {
        Some(d) => joined(d, APP_DIR@),
        None => joined(joined(joined(home, ".local"@), "share"@), APP_DIR@),
    }
}

pub fn config_dir() -> (r: Result<String, DirError>)
    ensures
        r is Ok ==> exists|b: Seq<char>| r->Ok_0@ == #[trigger] app_config_dir(b),
{
    match user_config_dir() {
        Some(b) => {
            let r = join(b.as_str(), APP_DIR);
            assert(r@ == app_config_dir(b@));
            Ok(r)
        },
        None => Err(DirError::NoConfigDir),
    }
}

pub fn data_dir() -> (r: Result<String, DirError>)
    ensures
        r is Ok ==> exists|d: Option<Seq<char>>, h: Seq<char>| r->Ok_0@ == #[trigger] app_data_dir(d, h),
{
    match user_data_dir() {
        Some(d) => {
            let r = join(d.as_str(), APP_DIR);
            assert(r@ == app_data_dir(Some(d@), Seq::empty()));
            Ok(r)
        },
        None => match user_home_dir() {
            Some(h) => {
                let a = join(h.as_str(), ".local");
                let b = join(a.as_str(), "share");
                let r = join(b.as_str(), APP_DIR);
                assert(r@ == app_data_dir(None, h@));
                Ok(r)
            },
            None => Err(DirError::NoDataDir),
        },
    }
}

/// A file inside a directory found by `dir`, or the directory's error.
fn in_dir(dir: Result<String, DirError>, name: &str) -> (r: Result<String, DirError>)
    ensures
        match (dir, r) {
            (Ok(d), Ok(f)) => f@ == joined(d@, name@),
            (Err(a), Err(b)) => a == b,
            _ => false,
        },
{
    match dir {
        Ok(d) => Ok(join(d.as_str(), name)),
        Err(e) => Err(e),
    }
}

/// `config.toml` in the configuration directory.
pub fn config_file() -> (r: Result<String, DirError>)
    ensures
        r is Ok ==> exists|b: Seq<char>| r->Ok_0@ == joined(#[trigger] app_config_dir(b), "config.toml"@),
{
    let r = in_dir(config_dir(), "config.toml");
    r
}

/// `updates` in the data directory.
pub fn updates_dir() -> (r: Result<String, DirError>)
    ensures
        r is Ok ==> exists|d: Option<Seq<char>>, h: Seq<char>| r->Ok_0@ == joined(#[trigger] app_data_dir(d, h), "updates"@),
{
    in_dir(data_dir(), "updates")
}

/// `update_state.json` in the configuration directory.
pub fn update_state_file() -> (r: Result<String, DirError>)
    ensures
        r is Ok ==> exists|b: Seq<char>| r->Ok_0@ == joined(#[trigger] app_config_dir(b), "update_state.json"@),
{
    in_dir(config_dir(), "update_state.json")
}

/// `update.lock` in the data directory.
pub fn update_lock_file() -> (r: Result<String, DirError>)
    ensures
        r is Ok ==> exists|d: Option<Seq<char>>, h: Seq<char>| r->Ok_0@ == joined(#[trigger] app_data_dir(d, h), "update.lock"@),
{
    in_dir(data_dir(), "update.lock")
}

/// `audetic.db` in the data directory.
pub fn db_file() -> (r: Result<String, DirError>)
    ensures
        r is Ok ==> exists|d: Option<Seq<char>>, h: Seq<char>| r->Ok_0@ == joined(#[trigger] app_data_dir(d, h), "audetic.db"@),
{
    in_dir(data_dir(), "audetic.db")
}

/// Where meeting recordings go when no data directory is known.
pub const FALLBACK_MEETINGS_DIR: &'static str = "/tmp/audetic/meetings";

/// The meetings directory: `meetings` in the data directory, or a fixed
/// temporary directory.
pub fn meetings_dir() -> (r: String)
    ensures
        r@ == FALLBACK_MEETINGS_DIR@ || exists|d: Option<Seq<char>>, h: Seq<char>| r@ == joined(#[trigger] app_data_dir(d, h), "meetings"@),
{
    match in_dir(data_dir(), "meetings") {
        Ok(p) => p,
        Err(_) => String::from_str(FALLBACK_MEETINGS_DIR),
    }
}

/// The audio file name of a meeting started at `stamp`: `meeting-STAMP.wav`,
/// or `meeting-STAMP-N.wav` for the `n`-th alternative.
pub open spec fn meeting_file_name(stamp: Seq<char>, n: nat) -> Seq<char> {
    if n == 0 {
        "meeting-"@ + stamp + ".wav"@
    } else {
        "meeting-"@ + stamp + "-"@ + decimal(n) + ".wav"@
    }
}

/// Builds `meeting_file_name(stamp, n)`.
pub fn meeting_file(stamp: &str, n: u64) -> (r: String)
    ensures
        r@ == meeting_file_name(stamp@, n as nat),
{
    let mut s = String::from_str("meeting-");
    s.append(stamp);
    if n > 0 {
        s.append("-");
        let d = u64_text(n);
        s.append(d.as_str());
    }
    s.append(".wav");
    s
}

/// The candidate a free-name search settles on, given which candidates
/// (from index `i` on) are taken: the first free one, or the plain name
/// (index 0) when all are taken.
pub open spec fn first_free_from(taken: Seq<bool>, i: int) -> nat
    decreases taken.len() - i,
{
    if i < 0 || i >= taken.len() {
        0
    } else if !taken[i] {
        i as nat
    } else {
        first_free_from(taken, i + 1)
    }
}

/// The first free candidate among `taken`, or 0 when none is free.
pub open spec fn first_free_of(taken: Seq<bool>) -> nat {
    first_free_from(taken, 0)
}

/// Picks the candidate: the first one not taken, else the first.
pub fn first_free(taken: &[bool]) -> (r: usize)
    ensures
        r as nat == first_free_of(taken@),
        r == 0 || r < taken@.len(),
        (exists|k: int| 0 <= k < taken@.len() && !taken@[k]) ==> r < taken@.len() && !taken@[r as int]
            && forall|k: int| 0 <= k < r ==> taken@[k],
{
    let mut i: usize = 0;
    while i < taken.len()
        invariant
            i <= taken@.len(),
            first_free_of(taken@) == first_free_from(taken@, i as int),
            forall|k: int| 0 <= k < i ==> taken@[k],
        decreases taken@.len() - i,
    {
        if !taken[i] {
            return i;
        }
        i = i + 1;
    }
    0
}

/// Candidates tried for a meeting's audio file: the plain name and 99
/// numbered alternatives.
pub const AUDIO_NAME_CANDIDATES: u64 = 100;

/// A collision-safe audio path in `dir` for a meeting started at `stamp`:
/// the candidates are probed in order until one is free, and the name is
/// the one `first_free` picks from what the probes answered.
pub fn generate_audio_path(dir: &str, stamp: &str) -> (r: String)
    ensures
        exists|taken: Seq<bool>| taken.len() <= AUDIO_NAME_CANDIDATES
            && r@ == joined(dir@, meeting_file_name(stamp@, #[trigger] first_free_of(taken))),
{
    let mut taken: Vec<bool> = Vec::new();
    let mut i: u64 = 0;
    let mut found = false;
    while i < AUDIO_NAME_CANDIDATES && !found
        invariant
            i <= AUDIO_NAME_CANDIDATES,
            taken@.len() == i,
        decreases AUDIO_NAME_CANDIDATES - i,
    {
        let name = meeting_file(stamp, i);
        let candidate = join(dir, name.as_str());
        found = !path_exists(candidate.as_str());
        taken.push(!found);
        i = i + 1;
    }
    let n = first_free(taken.as_slice());
    assert(n < AUDIO_NAME_CANDIDATES);
    let name = meeting_file(stamp, n as u64);
    join(dir, name.as_str())
}

} // verus!
