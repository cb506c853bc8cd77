//! Keybinding proposals for Hyprland: defaults, key strings, conflicts with
//! existing bindings and the installation status.
use vstd::prelude::*;
use vstd::string::*;
use crate::parser::{BindType, BindingSource, HyprBinding, Modifier, Modifiers, key_display, modifiers_text, parsed_modifiers, display_key_text};
use crate::text::{starts_with_seq, starts_with_chars, chars_of, string_of, contains_seq, contains_str, eq_ignore_ascii_case, eq_ignore_ascii_case_seq, lower_of, to_lower, to_upper, upper_of, views, words_chars, words_of};

verus! {

/// Default key of the binding.
pub const DEFAULT_KEY: &'static str = "R";
pub const AUDETIC_SECTION_MARKER: &'static str = "# Audetic voice-to-text (managed by audetic keybind)";
pub const AUDETIC_TOGGLE_ENDPOINT: &'static str = "http://127.0.0.1:3737/toggle";
/// Default description of the binding.
pub const DEFAULT_DESCRIPTION: &'static str = "Audetic";
/// Default command of the binding: a POST to the toggle endpoint.
pub const DEFAULT_COMMAND: &'static str = "curl -X POST http://127.0.0.1:3737/toggle";

/// A keybinding proposed for installation.
#[derive(Debug, Clone)]
pub struct ProposedBinding {
    pub modifiers: Modifiers,
    pub key: String,
    pub description: String,
    pub command: String,
}

impl Default for ProposedBinding {
    fn default() -> (r: Self)
        ensures
            r.modifiers.view() == seq![Modifier::Super],
            r.key@ == DEFAULT_KEY@,
            r.description@ == DEFAULT_DESCRIPTION@,
            r.command@ == DEFAULT_COMMAND@,
    {
        let mut mods: Vec<Modifier> = Vec::new();
        mods.push(Modifier::Super);
        assert(mods@ =~= seq![Modifier::Super]);
        ProposedBinding {
            modifiers: Modifiers(mods),
            key: String::from_str(DEFAULT_KEY),
            description: String::from_str(DEFAULT_DESCRIPTION),
            command: String::from_str(DEFAULT_COMMAND),
        }
    }
}

/// `bindd = MODS, KEY, DESCRIPTION, exec, COMMAND`
pub open spec fn hyprland_line(mods: Seq<Modifier>, key: Seq<char>, description: Seq<char>, command: Seq<char>) -> Seq<char> {
    "bindd = "@ + modifiers_text(mods) + ", "@ + key + ", "@ + description + ", exec, "@ + command
}

impl ProposedBinding {
    /// A binding with the given modifiers and key and the default
    /// description and command.
    pub fn new(modifiers: &[&str], key: &str) -> (r: Self)
        ensures
            r.modifiers.view() == parsed_modifiers(modifiers@.map_values(|x: &str| x@)),
            r.key@ == key@,
            r.description@ == DEFAULT_DESCRIPTION@,
            r.command@ == DEFAULT_COMMAND@,
    {
        let d = ProposedBinding::default();
        ProposedBinding {
            modifiers: Modifiers::from_strs(modifiers),
            key: String::from_str(key),
            description: d.description,
            command: d.command,
        }
    }

    /// The binding as a Hyprland `bindd` directive.
    pub fn to_hyprland_line(&self) -> (r: String)
        ensures
            r@ == hyprland_line(self.modifiers.view(), self.key@, self.description@, self.command@),
    {
        let mut s = String::from_str("bindd = ");
        let m = self.modifiers.to_string();
        s.append(m.as_str());
        s.append(", ");
        s.append(self.key.as_str());
        s.append(", ");
        s.append(self.description.as_str());
        s.append(", exec, ");
        s.append(self.command.as_str());
        assert(s@ =~= hyprland_line(self.modifiers.view(), self.key@, self.description@, self.command@));
        s
    }

    /// Display string for the keybinding (e.g. "SUPER + R").
    pub fn display_key(&self) -> (r: String)
        ensures
            r@ == key_display(self.modifiers.view(), self.key@),
    {
        display_key_text(&self.modifiers, &self.key)
    }
}

/// Two bindings hold the same values.
pub open spec fn same_binding(a: HyprBinding, b: HyprBinding) -> bool {
    &&& a.bind_type.text() == b.bind_type.text()
    &&& (a.bind_type is Other <==> b.bind_type is Other)
    &&& (!(a.bind_type is Other) ==> a.bind_type == b.bind_type)
    &&& a.modifiers.view() == b.modifiers.view()
    &&& a.key@ == b.key@
    &&& a.description.is_some() == b.description.is_some()
    &&& (a.description.is_some() ==> a.description->0@ == b.description->0@)
    &&& a.dispatcher@ == b.dispatcher@
    &&& a.command@ == b.command@
    &&& a.source.file@ == b.source.file@
    &&& a.source.line == b.source.line
    &&& a.raw_line@ == b.raw_line@
}

fn copy_modifiers(m: &Modifiers) -> (r: Modifiers)
    ensures
        r.view() == m.view(),
{
    let mut v: Vec<Modifier> = Vec::new();
    let mut i: usize = 0;
    while i < m.0.len()
        invariant
            i <= m.0@.len(),
            v@ == m.0@.subrange(0, i as int),
        decreases m.0@.len() - i,
    {
        v.push(m.0[i]);
        i = i + 1;
        assert(v@ =~= m.0@.subrange(0, i as int));
    }
    assert(v@ =~= m.0@);
    Modifiers(v)
}

/// A copy of a binding.
pub fn copy_binding(b: &HyprBinding) -> (r: HyprBinding)
    ensures
        same_binding(r, *b),
{
    let bind_type = match &b.bind_type {
        BindType::Bind => BindType::Bind,
        BindType::Bindd => BindType::Bindd,
        BindType::Bindr => BindType::Bindr,
        BindType::Bindl => BindType::Bindl,
        BindType::Bindld => BindType::Bindld,
        BindType::Other(s) => BindType::Other(s.clone()),
    };
    let description = match &b.description {
        Some(d) => Some(d.clone()),
        None => None,
    };
    HyprBinding {
        bind_type,
        modifiers: copy_modifiers(&b.modifiers),
        key: b.key.clone(),
        description,
        dispatcher: b.dispatcher.clone(),
        command: b.command.clone(),
        source: BindingSource { file: b.source.file.clone(), line: b.source.line },
        raw_line: b.raw_line.clone(),
    }
}

/// A copy of a proposed binding.
pub fn copy_proposed(p: &ProposedBinding) -> (r: ProposedBinding)
    ensures
        r.modifiers.view() == p.modifiers.view(),
        r.key@ == p.key@,
        r.description@ == p.description@,
        r.command@ == p.command@,
{
    ProposedBinding {
        modifiers: copy_modifiers(&p.modifiers),
        key: p.key.clone(),
        description: p.description.clone(),
        command: p.command.clone(),
    }
}

/// Result of checking for conflicts.
#[derive(Debug)]
pub struct ConflictCheckResult {
    pub proposed: ProposedBinding,
    pub conflicts: Vec<HyprBinding>,
}

impl ConflictCheckResult {
    pub fn has_conflicts(&self) -> (r: bool)
        ensures
            r == (self.conflicts@.len() > 0),
    {
        self.conflicts.len() > 0
    }
}

/// An existing binding takes the proposed combination: same key up to
/// ASCII case, same modifiers in the same order.
pub open spec fn conflicts_with(b: HyprBinding, p: ProposedBinding) -> bool {
    eq_ignore_ascii_case_seq(b.key@, p.key@) && b.modifiers.view() == p.modifiers.view()
}

/// The bindings among `bs` that conflict with `p`, in order.
pub open spec fn conflicting(bs: Seq<HyprBinding>, p: ProposedBinding) -> Seq<HyprBinding>
    decreases bs.len(),
{
    if bs.len() == 0 {
        Seq::empty()
    } else if conflicts_with(bs.last(), p) {
        conflicting(bs.drop_last(), p).push(bs.last())
    } else {
        conflicting(bs.drop_last(), p)
    }
}

fn same_modifiers(a: &Modifiers, b: &Modifiers) -> (r: bool)
    ensures
        r == (a.view() == b.view()),
{
    if a.0.len() != b.0.len() {
        return false;
    }
    let mut i: usize = 0;
    while i < a.0.len()
        invariant
            a.0@.len() == b.0@.len(),
            i <= a.0@.len(),
            forall|k: int| 0 <= k < i ==> a.0@[k] == b.0@[k],
        decreases a.0@.len() - i,
    {
        if a.0[i] != b.0[i] {
            return false;
        }
        i = i + 1;
    }
    assert(a.0@ =~= b.0@);
    true
}

/// Checks a proposed binding against existing ones.
pub fn check_conflicts(proposed: &ProposedBinding, bindings: &[HyprBinding]) -> (r: ConflictCheckResult)
    ensures
        r.proposed.modifiers.view() == proposed.modifiers.view(),
        r.proposed.key@ == proposed.key@,
        r.proposed.description@ == proposed.description@,
        r.proposed.command@ == proposed.command@,
        r.conflicts@.len() == conflicting(bindings@, *proposed).len(),
        forall|j: int| 0 <= j < r.conflicts@.len() ==> same_binding(#[trigger] r.conflicts@[j], conflicting(bindings@, *proposed)[j]),
{
    let mut conflicts: Vec<HyprBinding> = Vec::new();
    let mut i: usize = 0;
    while i < bindings.len()
        invariant
            i <= bindings@.len(),
            conflicts@.len() == conflicting(bindings@.subrange(0, i as int), *proposed).len(),
            forall|j: int| 0 <= j < conflicts@.len() ==> same_binding(#[trigger] conflicts@[j], conflicting(bindings@.subrange(0, i as int), *proposed)[j]),
        decreases bindings@.len() - i,
    {
        let b = &bindings[i];
        proof {
            assert(bindings@.subrange(0, i + 1).drop_last() =~= bindings@.subrange(0, i as int));
            assert(bindings@.subrange(0, i + 1).last() == bindings@[i as int]);
        }
        if eq_ignore_ascii_case(b.key.as_str(), proposed.key.as_str()) && same_modifiers(&b.modifiers, &proposed.modifiers) {
            conflicts.push(copy_binding(b));
        }
        i = i + 1;
    }
    assert(bindings@.subrange(0, bindings@.len() as int) =~= bindings@);
    ConflictCheckResult { proposed: copy_proposed(proposed), conflicts }
}

/// A binding is this application's when its command posts to the local
/// toggle port, or its description mentions "audetic" in any letter case.
pub open spec fn is_audetic_binding(b: HyprBinding) -> bool {
    contains_seq(b.command@, "127.0.0.1:3737"@) || contains_seq(b.command@, "localhost:3737"@)
        || (b.description.is_some() && contains_seq(lower_of(b.description->0@), "audetic"@))
}

/// The bindings among `bs` that are this application's, in order.
pub open spec fn audetic_among(bs: Seq<HyprBinding>) -> Seq<HyprBinding>
    decreases bs.len(),
{
    if bs.len() == 0 {
        Seq::empty()
    } else if is_audetic_binding(bs.last()) {
        audetic_among(bs.drop_last()).push(bs.last())
    } else {
        audetic_among(bs.drop_last())
    }
}

fn audetic_binding(b: &HyprBinding) -> (r: bool)
    ensures
        r == is_audetic_binding(*b),
{
    if contains_str(b.command.as_str(), "127.0.0.1:3737") || contains_str(b.command.as_str(), "localhost:3737") {
        return true;
    }
    match &b.description {
        Some(d) => {
            let l = to_lower(d.as_str());
            contains_str(l.as_str(), "audetic")
        },
        None => false,
    }
}

/// The existing bindings that belong to this application.
pub fn find_audetic_bindings(bindings: &[HyprBinding]) -> (r: Vec<&HyprBinding>)
    ensures
        r@.len() == audetic_among(bindings@).len(),
        forall|j: int| 0 <= j < r@.len() ==> *(#[trigger] r@[j]) == audetic_among(bindings@)[j],
{
    let mut found: Vec<&HyprBinding> = Vec::new();
    let mut i: usize = 0;
    while i < bindings.len()
        invariant
            i <= bindings@.len(),
            found@.len() == audetic_among(bindings@.subrange(0, i as int)).len(),
            forall|j: int| 0 <= j < found@.len() ==> *(#[trigger] found@[j]) == audetic_among(bindings@.subrange(0, i as int))[j],
        decreases bindings@.len() - i,
    {
        proof {
            assert(bindings@.subrange(0, i + 1).drop_last() =~= bindings@.subrange(0, i as int));
            assert(bindings@.subrange(0, i + 1).last() == bindings@[i as int]);
        }
        if audetic_binding(&bindings[i]) {
            found.push(&bindings[i]);
        }
        i = i + 1;
    }
    assert(bindings@.subrange(0, bindings@.len() as int) =~= bindings@);
    found
}

/// Status of this application's keybinding.
#[derive(Debug, Clone)]
pub enum KeybindStatus {
    /// A binding is installed
    Installed {
        binding: Option<HyprBinding>,
        config_path: String,
        /// Display string for the keybinding (e.g. "SUPER + R")
        display_key: String,
        /// The command bound to the key
        command: String,
    },
    /// No binding found
    NotInstalled { config_path: Option<String> },
    /// No Hyprland config found
    NoConfig,
}

/// Result of an install operation.
#[derive(Debug, Clone)]
pub struct InstallResult {
    /// Path to the backup file created
    pub backup_path: String,
    /// The binding that was installed
    pub display_key: String,
    /// Path to the config file modified
    pub config_path: String,
}

/// Result of an uninstall operation.
#[derive(Debug, Clone)]
pub struct UninstallResult {
    /// Whether a binding was actually removed
    pub removed: bool,
    /// Path to the backup file created (if any)
    pub backup_path: Option<String>,
    /// Path to the config file modified
    pub config_path: String,
}

/// The status reported for a writable config (if any) and the bindings of
/// all config files: installed when one of them is this application's (the
/// first such is reported).
pub fn status_from_bindings(config_path: Option<&String>, bindings: &[HyprBinding]) -> (r: KeybindStatus)
    ensures
        config_path.is_none() ==> r is NoConfig,
        config_path.is_some() && audetic_among(bindings@).len() == 0 ==> r is NotInstalled
            && r->NotInstalled_config_path.is_some()
            && r->NotInstalled_config_path->0@ == config_path->0@,
        config_path.is_some() && audetic_among(bindings@).len() > 0 ==> ({
            let b = audetic_among(bindings@)[0];
            &&& r is Installed
            &&& r->Installed_config_path@ == config_path->0@
            &&& r->Installed_display_key@ == key_display(b.modifiers.view(), b.key@)
            &&& r->Installed_command@ == b.command@
            &&& r->Installed_binding.is_some() && same_binding(r->Installed_binding->0, b)
        }),
{
    let path = match config_path {
        Some(p) => p.clone(),
        None => return KeybindStatus::NoConfig,
    };
    let existing = find_audetic_bindings(bindings);
    if existing.len() > 0 {
        let b: &HyprBinding = existing[0];
        KeybindStatus::Installed {
            binding: Some(copy_binding(b)),
            config_path: path,
            display_key: b.display_key(),
            command: b.command.clone(),
        }
    } else {
        KeybindStatus::NotInstalled { config_path: Some(path) }
    }
}

/// Why a key string was refused.
#[derive(Debug, Clone, PartialEq, Eq)]
pub enum KeyStringError {
    /// Nothing but separators
    Empty,
    /// A key without any modifier
    NoModifiers,
}

/// The key string with `+` and `,` read as spaces.
pub open spec fn key_separated(s: Seq<char>) -> Seq<char> {
    s.map_values(|c: char| if c == '+' || c == ',' { ' ' } else { c })
}

/// The words of a key string: modifiers first, the key last.
pub open spec fn key_words(s: Seq<char>) -> Seq<Seq<char>> {
    words_of(key_separated(s))
}

/// Parses key strings like `SUPER SHIFT, R`, `SUPER+R` or `SUPER, R`: the
/// last word is the key (upper-cased), the words before it the modifiers.
pub fn parse_key_string(s: &str) -> (r: Result<ProposedBinding, KeyStringError>)
    ensures
        key_words(s@).len() == 0 <==> r == Err::<ProposedBinding, KeyStringError>(KeyStringError::Empty),
        key_words(s@).len() == 1 <==> r == Err::<ProposedBinding, KeyStringError>(KeyStringError::NoModifiers),
        r is Ok ==> ({
            let w = key_words(s@);
            let p = r->Ok_0;
            &&& p.key@ == upper_of(w.last())
            &&& p.modifiers.view() == parsed_modifiers(w.drop_last())
            &&& p.description@ == DEFAULT_DESCRIPTION@
            &&& p.command@ == DEFAULT_COMMAND@
        }),
{
    let chars = chars_of(s);
    let mut normalized: Vec<char> = Vec::new();
    let mut i: usize = 0;
    while i < chars.len()
        invariant
            i <= chars@.len(),
            chars@ == s@,
            normalized@ == key_separated(s@).subrange(0, i as int),
        decreases chars@.len() - i,
    {
        let c = chars[i];
        if c == '+' || c == ',' {
            normalized.push(' ');
        } else {
            normalized.push(c);
        }
        i = i + 1;
        assert(normalized@ =~= key_separated(s@).subrange(0, i as int));
    }
    assert(normalized@ =~= key_separated(s@));
    let words = words_chars(normalized.as_slice());
    if words.len() == 0 {
        return Err(KeyStringError::Empty);
    }
    let n = words.len();
    if n == 1 {
        return Err(KeyStringError::NoModifiers);
    }
    let last = string_of(words[n - 1].as_slice());
    let key = to_upper(last.as_str());
    let mut names: Vec<String> = Vec::new();
    let mut j: usize = 0;
    while j < n - 1
        invariant
            n == words@.len(),
            j <= n - 1,
            names@.len() == j,
            forall|k: int| 0 <= k < j ==> #[trigger] names@[k]@ == words@[k]@,
        decreases n - 1 - j,
    {
        names.push(string_of(words[j].as_slice()));
        j = j + 1;
    }
    let mut strs: Vec<&str> = Vec::new();
    let mut k: usize = 0;
    while k < names.len()
        invariant
            k <= names@.len(),
            strs@.len() == k,
            forall|m: int| 0 <= m < k ==> #[trigger] strs@[m]@ == names@[m]@,
        decreases names@.len() - k,
    {
        strs.push(names[k].as_str());
        k = k + 1;
    }
    proof {
        let w = key_words(s@);
        assert(views(words@) == w);
        assert(strs@.map_values(|x: &str| x@) =~= w.drop_last());
        assert(w.last() == words@[n - 1]@);
    }
    Ok(ProposedBinding::new(strs.as_slice(), key.as_str()))
}

/// Backups kept per config file.
pub const MAX_BACKUPS: usize = 3;

/// Backups of a config file named `base` are named `base.audetic-backup-STAMP`.
pub open spec fn backup_prefix_of(base: Seq<char>) -> Seq<char> {
    base + ".audetic-backup-"@
}

/// The name of a backup of `base` taken at `stamp`.
pub fn backup_file_name(base: &str, stamp: &str) -> (r: String)
    ensures
        r@ == backup_prefix_of(base@) + stamp@,
{
    let mut s = String::from_str(base);
    s.append(".audetic-backup-");
    s.append(stamp);
    s
}

/// Whether `file_name` is a backup of a config file named `base`.
pub fn is_backup_of(file_name: &str, base: &str) -> (r: bool)
    ensures
        r == starts_with_seq(file_name@, backup_prefix_of(base@)),
{
    let mut prefix = String::from_str(base);
    prefix.append(".audetic-backup-");
    let f = chars_of(file_name);
    let p = chars_of(prefix.as_str());
    starts_with_chars(f.as_slice(), p.as_slice())
}

/// The backups to delete, given all of them newest first: all but the
/// newest `MAX_BACKUPS`.
pub fn stale_backups(newest_first: &[String]) -> (r: Vec<String>)
    ensures
        newest_first@.len() <= MAX_BACKUPS ==> r@.len() == 0,
        newest_first@.len() > MAX_BACKUPS ==> r@ == newest_first@.subrange(MAX_BACKUPS as int, newest_first@.len() as int),
{
    let mut out: Vec<String> = Vec::new();
    let mut i: usize = MAX_BACKUPS;
    while i < newest_first.len()
        invariant
            MAX_BACKUPS <= i,
            i <= newest_first@.len() ==> out@ == newest_first@.subrange(MAX_BACKUPS as int, i as int),
            i > newest_first@.len() ==> out@.len() == 0,
            newest_first@.len() > MAX_BACKUPS ==> i <= newest_first@.len(),
        decreases newest_first@.len() - i,
    {
        out.push(newest_first[i].clone());
        i = i + 1;
        assert(out@ =~= newest_first@.subrange(MAX_BACKUPS as int, i as int));
    }
    proof {
        if newest_first@.len() <= MAX_BACKUPS && i <= newest_first@.len() {
            assert(out@ =~= newest_first@.subrange(MAX_BACKUPS as int, i as int));
        }
    }
    out
}

} // verus!
